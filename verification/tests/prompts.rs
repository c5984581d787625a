use smallbird_local::backend::{
    AskRequest, AskRetrievedChunk, ConversationTurn, MeetingAskRequest, MeetingSummaryRequest,
    MeetingTurnIn, NoteContext, NotesAskRequest, NotesSummaryRequest, QuestionAnalysis,
    RetrievedSourceRef, Score, SetupAnalysisRequest, SetupAnalysisResponse, WireQuestionAnswer,
    WireRetrievedChunk,
};
use smallbird_local::json::{parse_json, Json};
use smallbird_local::json_members::{read_field, read_members, Field};
use smallbird_local::prompts::chat::extract_json_object;
use smallbird_local::prompts::intent::{build_intent_prompt, parse_intent, ParsedIntent};
use smallbird_local::prompts::{analysis, ask, meeting, notes, setup, veronica};

fn score(value: f64) -> Score {
    Score { bits: value.to_bits(), shown: format!("{value:.2}") }
}

fn sample_qa() -> WireQuestionAnswer {
    WireQuestionAnswer {
        question_id: "q1".to_string(),
        question: "What is RAG?".to_string(),
        candidate_answer: "Retrieval augmented generation".to_string(),
        timestamp: "00:00:10".to_string(),
        retrieved_context: vec![WireRetrievedChunk {
            text: "RAG combines retrieval with generation".to_string(),
            source_filename: "resume.pdf".to_string(),
            document_type: "resume".to_string(),
            score: score(0.8),
        }],
    }
}

#[test]
fn question_prompt_includes_retrieved_context_with_source_info() {
    let (_sys, user) = analysis::build_question_prompt(&sample_qa(), &None, &None, &None);
    assert!(user.contains("resume.pdf"));
    assert!(user.contains("0.80"));
    assert!(user.contains("RAG combines retrieval with generation"));
}

#[test]
fn question_prompt_omits_header_when_no_role_info() {
    let (_sys, user) = analysis::build_question_prompt(&sample_qa(), &None, &None, &None);
    assert!(user.contains("(No role/company/job description provided.)"));
}

#[test]
fn parses_valid_question_analysis_json() {
    let raw = r#"{"assessment": "Good answer", "score": 80, "strengths": ["clear"], "issues": [], "improved_answer": "Better answer"}"#;
    let result = analysis::parse_question_analysis(raw, &sample_qa());
    assert!(!result.failed);
    assert_eq!(result.score, 80);
    assert_eq!(result.assessment, "Good answer");
    assert_eq!(result.retrieved_sources.len(), 1);
}

#[test]
fn marks_failed_on_malformed_json_but_keeps_retrieved_sources() {
    let result = analysis::parse_question_analysis("not json at all", &sample_qa());
    assert!(result.failed);
    assert_eq!(result.score, 0);
    assert_eq!(result.retrieved_sources.len(), 1);
}

#[test]
fn provider_failure_leaves_retrieved_sources_empty() {
    let result = analysis::provider_failure_question_analysis(&sample_qa(), "timeout");
    assert!(result.failed);
    assert!(result.retrieved_sources.is_empty());
    assert!(result.error_message.unwrap().contains("timeout"));
}

fn sample_question_analysis(points: i32, failed: bool) -> QuestionAnalysis {
    QuestionAnalysis {
        question_id: "q1".to_string(),
        question: "Q".to_string(),
        candidate_answer: "A".to_string(),
        assessment: "assessment".to_string(),
        score: points,
        strengths: vec![],
        issues: vec![],
        improved_answer: String::new(),
        retrieved_sources: vec![RetrievedSourceRef {
            filename: "f".to_string(),
            document_type: "t".to_string(),
            score: score(0.5),
            text: "x".to_string(),
        }],
        failed,
        error_message: None,
    }
}

#[test]
fn overall_prompt_excludes_failed_questions() {
    let analyses = vec![sample_question_analysis(80, false), sample_question_analysis(0, true)];
    let (_sys, user) = analysis::build_overall_prompt(&analyses, &None, &None, &None);
    assert!(user.contains("Q1:"));
    assert!(!user.contains("Q2:"));
}

#[test]
fn average_fallback_uses_only_successful_scores() {
    let analyses = vec![
        sample_question_analysis(80, false),
        sample_question_analysis(60, false),
        sample_question_analysis(0, true),
    ];
    let result = analysis::average_score_fallback(analyses, "s1", "parse error");
    assert_eq!(result.overall_score, 70);
    assert_eq!(result.technical_score, 70);
    assert_eq!(result.status, "partial");
}

#[test]
fn average_fallback_handles_all_failed() {
    let analyses = vec![sample_question_analysis(0, true)];
    let result = analysis::average_score_fallback(analyses, "s1", "parse error");
    assert_eq!(result.overall_score, 0);
}

#[test]
fn parse_overall_result_status_is_partial_when_any_question_failed() {
    let raw = r#"{"overall_score": 70, "technical_score": 70, "communication_score": 70, "practical_experience_score": 70, "confidence_score": 70, "summary": "ok", "strengths": [], "weaknesses": [], "recommendations": []}"#;
    let analyses = vec![sample_question_analysis(80, false), sample_question_analysis(0, true)];
    let result = analysis::parse_overall_result(raw, analyses, "s1").unwrap();
    assert_eq!(result.status, "partial");
}

#[test]
fn parse_overall_result_errors_on_missing_field() {
    let raw = r#"{"overall_score": 70}"#;
    let result = analysis::parse_overall_result(raw, vec![], "s1");
    assert!(result.is_err());
}

#[test]
fn finalize_empty_never_calls_stage_two() {
    let result = analysis::finalize_empty("s1");
    assert_eq!(result.status, "completed");
    assert!(result.questions.is_empty());
}

#[test]
fn the_first_missing_score_is_named() {
    let raw = r#"{"overall_score": 70, "technical_score": "high"}"#;
    let e = analysis::parse_overall_result(raw, vec![], "s1").unwrap_err();
    assert_eq!(e, "missing or invalid field: technical_score");
}

#[test]
fn an_analysis_without_a_score_has_failed() {
    let result = analysis::parse_question_analysis(r#"{"assessment": "Good"}"#, &sample_qa());
    assert!(result.failed);
    assert_eq!(
        result.error_message.unwrap(),
        "response JSON was missing required fields (assessment/score)"
    );
}

#[test]
fn a_score_beyond_32_bits_keeps_its_low_bits() {
    let object = parse_json(r#"{"assessment": "x", "score": 4294967297}"#).unwrap();
    assert_eq!(analysis::read_question_analysis(&object, &sample_qa()).score, 1);
    let object = parse_json(r#"{"assessment": "x", "score": 2147483648}"#).unwrap();
    assert_eq!(analysis::read_question_analysis(&object, &sample_qa()).score, i32::MIN);
    let object = parse_json(r#"{"assessment": "x", "score": -1}"#).unwrap();
    assert_eq!(analysis::read_question_analysis(&object, &sample_qa()).score, -1);
}

#[test]
fn the_average_is_rounded_towards_zero() {
    let analyses = vec![sample_question_analysis(-1, false), sample_question_analysis(-2, false)];
    assert_eq!(analysis::average_score_fallback(analyses, "s1", "e").overall_score, -1);
    let analyses = vec![sample_question_analysis(i32::MIN, false), sample_question_analysis(i32::MIN, false)];
    assert_eq!(analysis::average_score_fallback(analyses, "s1", "e").overall_score, i32::MIN);
}

#[test]
fn a_failed_question_is_not_numbered() {
    let mut second = sample_question_analysis(60, false);
    second.question = "Second".to_string();
    let analyses = vec![sample_question_analysis(0, true), second];
    let (_sys, user) = analysis::build_overall_prompt(
        &analyses,
        &Some("Engineer".to_string()),
        &None,
        &Some("Build things".to_string()),
    );
    assert!(user.starts_with("ROLE\nEngineer\n\nJOB DESCRIPTION\nBuild things"));
    assert!(user.contains("Q1: Second\nScore: 60\nAssessment: assessment\nStrengths: (none noted)\nIssues: (none noted)"));
}

fn base_request(question: &str) -> AskRequest {
    AskRequest {
        question: question.to_string(),
        conversation_history: vec![],
        retrieved_context: vec![],
        candidate_context: None,
        role: None,
        job_description: None,
        answer_length: "default".to_string(),
        response_style: "natural".to_string(),
        english_level: "simple".to_string(),
        humanization: "natural".to_string(),
        llm_provider: None,
    }
}

#[test]
fn classifies_definition_question_as_short() {
    let (_, budget) = ask::classify_length("What is Kubernetes?");
    assert_eq!(budget, 75);
}

#[test]
fn classifies_architecture_question_as_long() {
    let (_, budget) = ask::classify_length("Explain the architecture step by step");
    assert_eq!(budget, 360);
}

#[test]
fn ask_classifies_explicit_full_picture_as_very_long() {
    let (_, budget) = ask::classify_length("Walk me through the complete architecture");
    assert_eq!(budget, 540);
}

#[test]
fn narrow_followup_overrides_topic_markers() {
    let (_, budget) = ask::classify_length("What did you use for embeddings?");
    assert_eq!(budget, 95);
}

#[test]
fn enumeration_word_is_whole_word_only() {
    let (_, budget) = ask::classify_length("Tell me about your prototype");
    assert_ne!(budget, ask::length_target(ask::Tier::Long).max_tokens.max(0));
}

#[test]
fn enumeration_word_matches_whole_word() {
    let (_, budget) = ask::classify_length("What are the types of caching?");
    assert_eq!(budget, 360);
}

#[test]
fn ask_brief_answer_length_clamps_but_never_inflates() {
    let mut req = base_request("Explain the architecture step by step");
    req.answer_length = "brief".to_string();
    assert_eq!(ask::max_tokens_for_question(&req), 120);

    let mut req2 = base_request("What is Rust?");
    req2.answer_length = "brief".to_string();
    assert_eq!(ask::max_tokens_for_question(&req2), 75);
}

#[test]
fn default_and_detailed_never_inflate_budget() {
    let mut req = base_request("What is Rust?");
    req.answer_length = "detailed".to_string();
    assert_eq!(ask::max_tokens_for_question(&req), 75);
}

#[test]
fn ask_context_blocks_omit_empty_sections_entirely() {
    let req = base_request("What is RAG?");
    assert!(ask::context_blocks(&req).is_empty());
}

#[test]
fn context_blocks_drop_source_filenames_and_scores() {
    let mut req = base_request("Tell me about your project");
    req.retrieved_context = vec![AskRetrievedChunk {
        text: "Built a RAG pipeline".to_string(),
        source_filename: "resume.pdf".to_string(),
        document_type: "resume".to_string(),
        score: 0.9f64.to_bits(),
    }];
    let blocks = ask::context_blocks(&req);
    assert_eq!(blocks.len(), 1);
    assert!(blocks[0].contains("Built a RAG pipeline"));
    assert!(!blocks[0].contains("resume.pdf"));
}

#[test]
fn ask_build_messages_replays_history_as_real_turns() {
    let mut req = base_request("Why did you choose that?");
    req.conversation_history = vec![ConversationTurn {
        question: "How did you build the RAG system?".to_string(),
        answer: "I used a vector database.".to_string(),
    }];
    let messages = ask::build_messages(&req);
    assert_eq!(messages.len(), 4);
    assert_eq!(messages[0].role, "system");
    assert_eq!(messages[1].role, "user");
    assert_eq!(messages[1].content, "How did you build the RAG system?");
    assert_eq!(messages[2].role, "assistant");
    assert_eq!(messages[2].content, "I used a vector database.");
    assert_eq!(messages[3].role, "user");
}

#[test]
fn parses_open_app() {
    let raw = r#"{"intent": "OPEN_APP", "target": "Notepad"}"#;
    assert_eq!(parse_intent(raw), ParsedIntent::OpenApp("Notepad".to_string()));
}

#[test]
fn unknown_intent_string_falls_back_to_unknown() {
    let raw = r#"{"intent": "DELETE_FILE", "target": "C:\\important.txt"}"#;
    assert_eq!(parse_intent(raw), ParsedIntent::Unknown);
}

#[test]
fn missing_target_falls_back_to_unknown() {
    let raw = r#"{"intent": "OPEN_APP", "target": ""}"#;
    assert_eq!(parse_intent(raw), ParsedIntent::Unknown);
}

#[test]
fn malformed_json_falls_back_to_unknown() {
    assert_eq!(parse_intent("not json at all"), ParsedIntent::Unknown);
}

fn base_ask_request(question: &str) -> MeetingAskRequest {
    MeetingAskRequest {
        question: question.to_string(),
        conversation_history: vec![],
        retrieved_context: vec![],
        meeting_title: None,
        participants: None,
        answer_length: "default".to_string(),
        response_style: "natural".to_string(),
        humanization: "natural".to_string(),
        llm_provider: None,
    }
}

#[test]
fn max_tokens_matches_fixed_lookup() {
    let mut req = base_ask_request("q");
    assert_eq!(meeting::max_tokens(&req), 180);
    req.answer_length = "brief".to_string();
    assert_eq!(meeting::max_tokens(&req), 120);
    req.answer_length = "detailed".to_string();
    assert_eq!(meeting::max_tokens(&req), 300);
}

#[test]
fn ask_messages_omit_context_block_when_empty() {
    let req = base_ask_request("What did we agree on pricing?");
    let messages = meeting::build_ask_messages(&req);
    let last = messages.last().unwrap();
    assert!(!last.content.contains("CONTEXT:"));
}

#[test]
fn ask_messages_replay_history_as_real_turns() {
    let mut req = base_ask_request("And the deadline?");
    req.conversation_history = vec![ConversationTurn {
        question: "What's the budget?".to_string(),
        answer: "$10k".to_string(),
    }];
    let messages = meeting::build_ask_messages(&req);
    assert_eq!(messages[1].role, "user");
    assert_eq!(messages[1].content, "What's the budget?");
    assert_eq!(messages[2].role, "assistant");
    assert_eq!(messages[2].content, "$10k");
}

#[test]
fn empty_turns_short_circuits_without_llm_call() {
    let summary = meeting::empty_turns_summary();
    assert_eq!(summary.summary, "No conversation was captured for this meeting.");
}

#[test]
fn summary_prompt_includes_transcript_and_tracked_items() {
    let request = MeetingSummaryRequest {
        turns: vec![MeetingTurnIn { speaker: "ME".to_string(), text: "Let's ship Friday".to_string() }],
        key_points: vec!["ship Friday".to_string()],
        decisions: vec![],
        action_items: vec![],
        meeting_title: Some("Standup".to_string()),
        participants: None,
    };
    let (_sys, user) = meeting::build_summary_prompt(&request);
    assert!(user.contains("ME: Let's ship Friday"));
    assert!(user.contains("- ship Friday"));
    assert!(user.contains("(none noted)"));
    assert!(user.contains("Standup"));
}

#[test]
fn tracked_items_fallback_echoes_client_state_with_empty_next_steps() {
    let request = MeetingSummaryRequest {
        turns: vec![],
        key_points: vec!["kp".to_string()],
        decisions: vec!["d".to_string()],
        action_items: vec!["a".to_string()],
        meeting_title: None,
        participants: None,
    };
    let fallback = meeting::tracked_items_fallback(&request, "boom");
    assert_eq!(fallback.key_points, vec!["kp".to_string()]);
    assert!(fallback.next_steps.is_empty());
    assert!(fallback.message.contains("boom"));
}

#[test]
fn a_meeting_summary_is_read() {
    let summary = meeting::parse_summary(r#"{"summary": "We met", "next_steps": ["ship", 3]}"#).unwrap();
    assert_eq!(summary.summary, "We met");
    assert_eq!(summary.next_steps, vec!["ship".to_string()]);
    assert!(meeting::parse_summary("nothing").is_err());
}

#[test]
fn extracts_plain_json() {
    assert_eq!(extract_json_object(r#"{"a": 1}"#).unwrap(), r#"{"a": 1}"#);
}

#[test]
fn strips_markdown_fence_with_json_label() {
    let raw = "```json\n{\"a\": 1}\n```";
    assert_eq!(extract_json_object(raw).unwrap(), "{\"a\": 1}");
}

#[test]
fn strips_markdown_fence_without_label() {
    let raw = "```\n{\"a\": 1}\n```";
    assert_eq!(extract_json_object(raw).unwrap(), "{\"a\": 1}");
}

#[test]
fn extracts_json_surrounded_by_prose() {
    let raw = "Sure, here you go:\n{\"a\": 1}\nHope that helps!";
    assert_eq!(extract_json_object(raw).unwrap(), "{\"a\": 1}");
}

#[test]
fn errors_when_no_braces_present() {
    assert!(extract_json_object("no json here").is_err());
}

#[test]
fn ask_messages_omit_notes_block_when_no_notes() {
    let request = NotesAskRequest { question: "What's my plan?".to_string(), notes: vec![] };
    let messages = notes::build_ask_messages(&request);
    assert!(!messages[1].content.contains("NOTES:"));
}

#[test]
fn ask_messages_format_untitled_notes() {
    let request = NotesAskRequest {
        question: "q".to_string(),
        notes: vec![NoteContext { title: None, body: "buy milk".to_string() }],
    };
    let messages = notes::build_ask_messages(&request);
    assert!(messages[1].content.contains("[(untitled)]\nbuy milk"));
}

#[test]
fn summary_prompt_uses_untitled_fallback() {
    let request = NotesSummaryRequest { title: None, body: "Meeting notes here".to_string() };
    let messages = notes::build_summary_messages(&request);
    assert!(messages[1].content.contains("TITLE: (untitled)"));
}

#[test]
fn parse_summary_defaults_missing_fields_to_empty() {
    let summary = notes::parse_summary(r#"{"summary": "short"}"#).unwrap();
    assert_eq!(summary.summary, "short");
    assert!(summary.tasks.is_empty());
}

#[test]
fn summary_failure_has_no_fallback_data() {
    let failure = notes::summary_failure("boom");
    assert!(failure.tasks.is_empty());
    assert!(failure.message.contains("boom"));
}

#[test]
fn no_call_when_both_inputs_blank() {
    let request = SetupAnalysisRequest {
        resume_text: Some("   ".to_string()),
        job_description_text: None,
    };
    assert!(setup::build_messages(&request).is_none());
}

#[test]
fn builds_messages_when_resume_present() {
    let request = SetupAnalysisRequest {
        resume_text: Some("Senior engineer, 5 years Rust".to_string()),
        job_description_text: None,
    };
    let messages = setup::build_messages(&request).unwrap();
    assert!(messages[1].content.contains("RESUME:"));
    assert!(!messages[1].content.contains("JOB DESCRIPTION:"));
}

#[test]
fn parse_response_returns_empty_on_malformed_json() {
    let response = setup::parse_response("not json");
    assert_eq!(response, SetupAnalysisResponse::default());
}

#[test]
fn parse_response_extracts_valid_fields() {
    let raw = r#"{"job_title": "Engineer", "required_skills": ["Rust", "Python"]}"#;
    let response = setup::parse_response(raw);
    assert_eq!(response.job_title, Some("Engineer".to_string()));
    assert_eq!(response.required_skills, vec!["Rust".to_string(), "Python".to_string()]);
}

fn company_in(raw: &str) -> Option<String> {
    setup::parse_response(raw).company
}

#[test]
fn a_fact_that_stands_twice_says_nothing() {
    assert_eq!(company_in(r#"{"company": "Acme", "company": "Bird"}"#), None);
    assert_eq!(company_in(r#"{"company": "Acme", "seniority": null, "seniority": null}"#), None);
    assert_eq!(company_in(r#"{"company": "Acme", "comp\u0061ny": "Acme"}"#), None);
}

#[test]
fn other_keys_of_an_answer_are_passed_over() {
    let acme = Some("Acme".to_string());
    assert_eq!(company_in(r#"{"salary": 1e999, "company": "Acme"}"#), acme);
    assert_eq!(company_in(r#"{"company": "Acme", "x": 1, "x": [{"company": 2}]}"#), acme);
    assert_eq!(company_in(r#"{"x": "\ud800", "company": "Acme"}"#), acme);
    let deep = format!("{{\"x\": {}{}, \"company\": \"Acme\"}}", "[".repeat(300), "]".repeat(300));
    assert_eq!(company_in(&deep), acme);
}

#[test]
fn a_fact_of_the_wrong_kind_says_nothing() {
    assert_eq!(company_in(r#"{"company": "Acme", "job_title": 1}"#), None);
    assert_eq!(company_in(r#"{"company": "Acme", "technologies": null}"#), None);
    assert_eq!(company_in(r#"{"company": "Acme", "technologies": ["Rust", 1]}"#), None);
    assert_eq!(company_in(r#"{"company": "Acme", "job_title": null}"#), Some("Acme".to_string()));
}

#[test]
fn an_answer_is_read_as_a_whole() {
    let acme = Some("Acme — Söhne".to_string());
    assert_eq!(company_in("Sure! {\n \"company\"\t: \"Acme — Söhne\"\r\n} Done."), acme);
    assert_eq!(company_in(r#"{"comp\u0061ny": "Acme — Söhne"}"#), acme);
    for broken in [
        r#"{"company": "Acme",}"#,
        r#"{"company" "Acme"}"#,
        r#"{"company": "Acme" "seniority": null}"#,
        r#"{"company": "Acme"} or {}"#,
        r#"{"company": Acme}"#,
        r#"{"company": "Acme", 1: 2}"#,
        r#"{"company": "Acme", "x": nullx}"#,
        r#"{, "company": "Acme"}"#,
        r#"{"company": "Acme", "x": 01}"#,
        "{}",
    ] {
        assert_eq!(company_in(broken), None, "{broken}");
    }
}

#[test]
fn the_members_of_an_object_are_kept_as_they_stand() {
    let members = read_members(" {\"a\" : [1, 2],\"a\":\"x\" , \"b\":{}} ").unwrap();
    let shown: Vec<(&str, &str)> =
        members.iter().map(|m| (m.key.as_str(), m.value.as_str())).collect();
    assert_eq!(shown, vec![("a", " [1, 2]"), ("a", "\"x\""), ("b", "{}")]);
    assert!(matches!(read_field(&members, "a"), Field::Unreadable));
    assert!(matches!(read_field(&members, "b"), Field::Holds(Json::Object(o)) if o.is_empty()));
    assert!(matches!(read_field(&members, "c"), Field::Missing));
    assert!(read_members("{ } ").unwrap().is_empty());
    assert!(read_members("[]").is_none());
    assert!(read_members("").is_none());
}

#[test]
fn classifies_ordinary_definition_question_as_short_default() {
    let (_, budget) = veronica::classify_length("What is Kubernetes?");
    assert_eq!(budget, 90);
}

#[test]
fn classifies_explicit_architecture_request_as_long() {
    let (_, budget) = veronica::classify_length("Explain the architecture step by step");
    assert_eq!(budget, 380);
}

#[test]
fn veronica_classifies_explicit_full_picture_as_very_long() {
    let (_, budget) = veronica::classify_length("Walk me through the complete architecture");
    assert_eq!(budget, 540);
}

#[test]
fn ordinary_enumeration_question_stays_short_by_default() {
    let (_, budget) = veronica::classify_length("What are the types of caching?");
    assert_eq!(budget, 90);
}

#[test]
fn explicit_list_request_gets_the_long_tier() {
    let (_, budget) = veronica::classify_length("Can you list the types of caching?");
    assert_eq!(budget, 380);
}

#[test]
fn ordinary_why_question_has_no_forced_format() {
    assert_eq!(veronica::classify_format("Why is that a problem?"), None);
}

#[test]
fn ordinary_how_question_has_no_forced_format() {
    assert_eq!(veronica::classify_format("How does caching work?"), None);
}

#[test]
fn explicit_breakdown_request_gets_a_format_hint() {
    assert!(veronica::classify_format("Can you break that down for me?").is_some());
}

#[test]
fn veronica_brief_answer_length_clamps_but_never_inflates() {
    let mut req = base_request("Explain the architecture step by step");
    req.answer_length = "brief".to_string();
    assert_eq!(veronica::max_tokens_for_question(&req), 120);

    let mut req2 = base_request("What is Rust?");
    req2.answer_length = "brief".to_string();
    assert_eq!(veronica::max_tokens_for_question(&req2), 90);
}

#[test]
fn veronica_context_blocks_omit_empty_sections_entirely() {
    let req = base_request("What is RAG?");
    assert!(veronica::context_blocks(&req).is_empty());
}

#[test]
fn veronica_build_messages_replays_history_as_real_turns() {
    let mut req = base_request("Why did you choose that?");
    req.conversation_history = vec![ConversationTurn {
        question: "How did you build the RAG system?".to_string(),
        answer: "I used a vector database.".to_string(),
    }];
    let messages = veronica::build_messages(&req);
    assert_eq!(messages.len(), 4);
    assert_eq!(messages[0].role, "system");
    assert_eq!(messages[1].role, "user");
    assert_eq!(messages[1].content, "How did you build the RAG system?");
    assert_eq!(messages[2].role, "assistant");
    assert_eq!(messages[2].content, "I used a vector database.");
    assert_eq!(messages[3].role, "user");
}

#[test]
fn the_case_of_a_question_makes_no_difference() {
    assert_eq!(
        veronica::classify_length("BREAK IT DOWN"),
        veronica::classify_length("break it down")
    );
    assert_eq!(ask::classify_length("WHAT IS RUST?").1, 75);
}

#[test]
fn the_assistant_goes_by_its_name() {
    let prompt = veronica::system_prompt("Mark");
    assert!(prompt.starts_with("You are Mark — a sophisticated personal AI companion"));
    assert!(prompt.contains("\n\nYou are Mark. You support only English."));
    assert!(!prompt.contains("{name}"));
    let template = veronica::system_prompt("{name}");
    assert_eq!(template.replace("{name}", "Mark"), prompt);
    assert_eq!(template.matches("{name}").count(), 2);
}

#[test]
fn an_intent_is_asked_for() {
    let (_scene, message) = build_intent_prompt("open notepad");
    assert!(message.starts_with("USER REQUEST\nopen notepad"));
}
