use smallbird_local::audio::AudioSource;
use smallbird_local::json::parse_json;
use smallbird_local::stt::events::{SidecarLine, SttEvent, SttEventKind};
use smallbird_local::stt::groq::{
    encode_pcm16, encode_wav_pcm16, is_likely_hallucination, plan_transcription, read_response,
    request_timeout, GroqError,
};
use smallbird_local::stt::sidecar::{
    finish_utterance, plan_launch, ready_timeout, startup_result, write_frame, Readiness,
    ReaderAction, ReaderInput, SidecarFiles, SidecarReader, SttSidecar,
};
use smallbird_local::tts::chunker::SentenceChunker;
use smallbird_local::tts::deepgram::{check_status, plan_speech, speak_url, DeepgramError};
use smallbird_local::tts::deepgram_flux::{
    api_key, connect_url, ConnectAttempts, FluxAction, FluxCommand, FluxError, FluxInput, FluxLoop,
    FluxSession, RetryAction,
};
use smallbird_local::tts::player::{
    PcmDecoder, PlaybackHandle, Player, PlayerAction, PlayerCommand, PlayerInput,
};
use smallbird_local::tts::session::{
    voice_failure_message, AudioAction, SpeakAction, SpeakingFlags, TtsSession, TtsSpeakingSignal,
};

#[test]
fn groq_missing_key_is_reported_without_making_a_request() {
    let err = plan_transcription(3, false, None).unwrap_err();
    assert!(matches!(err, GroqError::MissingKey));
}

#[test]
fn empty_samples_short_circuit_to_empty_text_regardless_of_key_state() {
    assert!(plan_transcription(0, false, None).unwrap().is_none());
    assert!(plan_transcription(0, false, Some("k".to_string())).unwrap().is_none());
}

#[test]
fn wav_header_reports_correct_data_length_and_format() {
    let samples = vec![0i16; 1600];
    let wav = encode_wav_pcm16(&samples, 16_000);
    assert_eq!(&wav[0..4], b"RIFF");
    assert_eq!(&wav[8..16], b"WAVEfmt ");
    let data_len = u32::from_le_bytes([wav[40], wav[41], wav[42], wav[43]]);
    assert_eq!(data_len, 1600 * 2);
    assert_eq!(wav.len(), 44 + 1600 * 2);
}

#[test]
fn groq_display_never_includes_a_key_value() {
    let err = GroqError::MissingKey;
    assert!(!err.message().to_lowercase().contains("gsk_"));
}

#[test]
fn high_no_speech_prob_is_flagged_as_hallucination() {
    let response = parse_json(
        r#"{"text": "그럴까?", "segments": [{"no_speech_prob": 0.85, "avg_logprob": -0.3}]}"#,
    )
    .unwrap();
    assert!(is_likely_hallucination(&response));
}

#[test]
fn very_negative_avg_logprob_is_flagged_as_hallucination() {
    let response = parse_json(
        r#"{"text": "some garbled text", "segments": [{"no_speech_prob": 0.1, "avg_logprob": -1.5}]}"#,
    )
    .unwrap();
    assert!(is_likely_hallucination(&response));
}

#[test]
fn confident_real_speech_is_not_flagged() {
    let response = parse_json(
        r#"{"text": "Open VS Code.", "segments": [{"no_speech_prob": 0.02, "avg_logprob": -0.15}]}"#,
    )
    .unwrap();
    assert!(!is_likely_hallucination(&response));
}

#[test]
fn one_confident_segment_among_several_is_enough_to_trust_the_transcript() {
    let response = parse_json(
        r#"{"text": "Open VS Code.", "segments": [{"no_speech_prob": 0.9, "avg_logprob": -0.2}, {"no_speech_prob": 0.02, "avg_logprob": -0.1}]}"#,
    )
    .unwrap();
    assert!(!is_likely_hallucination(&response));
}

#[test]
fn missing_segments_array_fails_open_never_filters() {
    let response = parse_json(r#"{"text": "some text"}"#).unwrap();
    assert!(!is_likely_hallucination(&response));
}

#[test]
fn empty_segments_array_fails_open() {
    let response = parse_json(r#"{"text": "", "segments": []}"#).unwrap();
    assert!(!is_likely_hallucination(&response));
}

#[test]
fn near_silence_never_reaches_the_network() {
    assert!(plan_transcription(16_000, true, None).unwrap().is_none());
}

#[test]
fn answers_of_the_transcription_service_are_read() {
    assert!(matches!(read_response(429, ""), Err(GroqError::RateLimited)));
    match read_response(500, "down") {
        Err(GroqError::Http { status, body }) => {
            assert_eq!((status, body.as_str()), (500, "down"));
        }
        other => panic!("{other:?}"),
    }
    match read_response(200, "oops") {
        Err(GroqError::UnexpectedResponse(e)) => assert_eq!(e, "error decoding response body"),
        other => panic!("{other:?}"),
    }
    assert_eq!(read_response(200, r#"{"text": " hello "}"#).unwrap(), "hello");
    assert_eq!(request_timeout(&Some(" 20 ".to_string())), 20);
    assert_eq!(request_timeout(&Some("soon".to_string())), 15_000);
}

#[test]
fn decoding_gives_back_what_was_encoded() {
    let samples = vec![0i16, 1, -1, i16::MAX, i16::MIN];
    let bytes = encode_pcm16(&samples);
    assert_eq!(PcmDecoder::new().decode(&bytes), samples);
}

#[test]
fn flushes_on_sentence_boundary() {
    let mut c = SentenceChunker::new();
    assert_eq!(c.push("Hello there. "), vec!["Hello there."]);
}

#[test]
fn holds_incomplete_sentence() {
    let mut c = SentenceChunker::new();
    assert_eq!(c.push("Hello there"), Vec::<String>::new());
}

#[test]
fn flushes_incrementally_across_pushes() {
    let mut c = SentenceChunker::new();
    assert_eq!(c.push("Hello"), Vec::<String>::new());
    assert_eq!(c.push(" there."), vec!["Hello there."]);
}

#[test]
fn splits_multiple_sentences_in_one_delta() {
    let mut c = SentenceChunker::new();
    assert_eq!(c.push("Yes. No. Maybe. "), vec!["Yes.", "No.", "Maybe."]);
}

#[test]
fn keeps_trailing_quote_with_sentence() {
    let mut c = SentenceChunker::new();
    assert_eq!(c.push("She said \"hi.\" "), vec!["She said \"hi.\""]);
}

#[test]
fn decimal_point_is_not_a_sentence_boundary() {
    let mut c = SentenceChunker::new();
    assert_eq!(c.push("The value is 3.14 exactly."), vec!["The value is 3.14 exactly."]);
}

#[test]
fn long_run_on_text_flushes_without_punctuation() {
    let mut c = SentenceChunker::new();
    let chunks = c.push("first line\nsecond line continues");
    assert_eq!(chunks, vec!["first line"]);
}

#[test]
fn first_chunk_of_an_answer_can_release_on_a_comma_for_lower_latency() {
    let mut c = SentenceChunker::new();
    let chunks = c.push("Well, given everything you've described, it depends on the situation.");
    assert_eq!(
        chunks,
        vec!["Well, given everything you've described,", "it depends on the situation."],
        "the first clause should release early at the comma; the rest waits for the sentence"
    );
}

#[test]
fn short_leading_comma_does_not_release_a_tiny_fragment() {
    let mut c = SentenceChunker::new();
    assert_eq!(c.push("Well, "), Vec::<String>::new());
}

#[test]
fn comma_boundary_only_applies_before_the_first_release() {
    let mut c = SentenceChunker::new();
    let first = c.push("This is the opening sentence with no comma. ");
    assert_eq!(first, vec!["This is the opening sentence with no comma."]);

    let second = c.push("Second, with a comma in it, ends here. ");
    assert_eq!(
        second,
        vec!["Second, with a comma in it, ends here."],
        "once released_any is true, only real sentence punctuation should split"
    );
}

#[test]
fn finish_on_empty_buffer_returns_none() {
    let mut c = SentenceChunker::new();
    assert_eq!(c.finish(), None);
}

#[test]
fn finish_returns_trailing_incomplete_text() {
    let mut c = SentenceChunker::new();
    c.push("no closing punctuation here");
    assert_eq!(c.finish(), Some("no closing punctuation here".to_string()));
}

#[test]
fn finish_clears_the_buffer() {
    let mut c = SentenceChunker::new();
    c.push("leftover");
    c.finish();
    assert_eq!(c.finish(), None);
}

#[test]
fn the_whole_answer_is_spoken_however_it_comes_in() {
    let text = "First, a clause that is long enough, and more. Then 3.5 of it!\nDone";
    let mut c = SentenceChunker::new();
    let mut spoken = vec![];
    for ch in text.chars() {
        spoken.extend(c.push(&ch.to_string()));
    }
    spoken.extend(c.finish());
    let visible = |s: &str| s.chars().filter(|c| !c.is_whitespace()).collect::<String>();
    assert_eq!(visible(&spoken.concat()), visible(text));
    assert!(spoken.iter().all(|s| !s.is_empty()));
}

#[test]
fn deepgram_missing_key_is_reported_without_making_a_request() {
    let err = plan_speech("hello", None).unwrap_err();
    assert!(matches!(err, DeepgramError::MissingKey));
}

#[test]
fn empty_text_short_circuits_to_ok_with_no_chunks_regardless_of_key_state() {
    assert!(plan_speech("   ", None).unwrap().is_none());
    assert!(plan_speech("   ", Some("k".to_string())).unwrap().is_none());
}

#[test]
fn deepgram_display_never_includes_a_key_value() {
    let err = DeepgramError::MissingKey;
    assert!(!err.message().to_lowercase().contains("token"));
}

#[test]
fn answers_of_the_speech_service_are_read() {
    assert!(check_status(200, String::new()).is_ok());
    assert!(matches!(check_status(429, String::new()), Err(DeepgramError::RateLimited)));
    match check_status(401, "no".to_string()) {
        Err(e) => assert!(e.message().contains("401")),
        Ok(()) => panic!("a refusal"),
    }
    assert!(speak_url().starts_with("https://api.deepgram.com/v1/speak?"));
}

#[test]
fn deepgram_flux_display_never_includes_a_key_value() {
    let err = FluxError::MissingKey;
    assert!(!err.message().to_lowercase().contains("token"));
}

#[test]
fn missing_key_is_reported_without_connecting() {
    assert!(matches!(api_key(&None), Err(FluxError::MissingKey)));
    assert_eq!(api_key(&Some("k".to_string())).unwrap(), "k");
    assert!(connect_url().starts_with("wss://api.deepgram.com/v2/speak?"));
}

#[test]
fn a_connection_is_tried_a_few_times() {
    let mut attempts = ConnectAttempts::new();
    assert!(matches!(attempts.attempt_failed("a".to_string()), RetryAction::TryAgain));
    assert!(matches!(attempts.attempt_failed("b".to_string()), RetryAction::TryAgain));
    match attempts.attempt_failed("c".to_string()) {
        RetryAction::GiveUp(e) => assert_eq!(e, "c"),
        RetryAction::TryAgain => panic!("three attempts are enough"),
    }
}

#[test]
fn what_is_to_be_spoken_is_taken_in_order() {
    let mut session = FluxSession::new();
    session.speak("one");
    session.flush();
    assert!(matches!(session.take(), Some(FluxCommand::Speak(t)) if t == "one"));
    session.interrupt();
    assert!(matches!(session.take(), Some(FluxCommand::Flush)));
    assert!(matches!(session.take(), Some(FluxCommand::Interrupt)));
    session.mark_ended();
    session.speak("late");
    assert!(session.take().is_none());
}

#[test]
fn session_starts_and_stops_without_panicking() {
    let mut flags = SpeakingFlags::default();
    let mut session = TtsSession::start(TtsSpeakingSignal::new(&mut flags));
    assert_eq!(session.speak(&mut flags, false), SpeakAction::ConnectFirst);
    session.connect_result(false);
    session.on_error(&mut flags);
    assert!(!session.stop(&mut flags));
    assert!(!session.signal().is_speaking(&flags));
    assert_eq!(voice_failure_message("x"), "Voice output failed: x");
}

#[test]
fn stop_does_not_permanently_silence_a_later_turn_once_begin_turn_is_called() {
    let mut flags = SpeakingFlags::default();
    let mut session = TtsSession::start(TtsSpeakingSignal::new(&mut flags));
    session.begin_turn();
    assert_eq!(session.speak(&mut flags, false), SpeakAction::ConnectFirst);
    session.connect_result(true);
    assert!(session.stop(&mut flags));
    assert_eq!(session.speak(&mut flags, true), SpeakAction::Drop);
    assert!(!session.signal().is_speaking(&flags));
    session.begin_turn();
    assert_eq!(session.speak(&mut flags, false), SpeakAction::ConnectFirst);
    session.connect_result(true);
    assert_eq!(session.speak(&mut flags, true), SpeakAction::Send);
    assert!(session.signal().is_speaking(&flags));
    assert!(session.finish(&mut flags));
    assert!(!session.signal().is_speaking(&flags));
}

#[test]
fn the_microphone_sees_what_the_session_does() {
    let mut flags = SpeakingFlags::default();
    let heard = TtsSpeakingSignal::new(&mut flags);
    let mut session = TtsSession::start(heard);
    assert!(!heard.is_speaking(&flags));
    session.speak(&mut flags, false);
    assert!(heard.is_speaking(&flags));
    session.signal().set_sink_active(&mut flags, true);
    session.finish(&mut flags);
    assert!(heard.is_speaking(&flags));
    session.stop(&mut flags);
    assert!(!heard.is_speaking(&flags));
}

#[test]
fn the_first_audio_of_a_turn_is_announced_once() {
    let mut flags = SpeakingFlags::default();
    let mut session = TtsSession::start(TtsSpeakingSignal::new(&mut flags));
    session.begin_turn();
    session.set_turn_audio_hook();
    assert_eq!(session.on_audio(vec![1, 0]), AudioAction::AnnounceAndPlay);
    assert_eq!(session.on_audio(vec![2, 0]), AudioAction::Play);
    session.stop(&mut flags);
    assert_eq!(session.on_audio(vec![3, 0]), AudioAction::Drop);
    assert!(matches!(session.take_player_command(), Some(PlayerCommand::Reopen)));
    assert!(
        matches!(session.take_player_command(), Some(PlayerCommand::Chunk(b)) if b == vec![1, 0])
    );
    assert!(
        matches!(session.take_player_command(), Some(PlayerCommand::Chunk(b)) if b == vec![2, 0])
    );
    assert!(matches!(session.take_player_command(), Some(PlayerCommand::Stop)));
    assert!(session.take_player_command().is_none());
}

#[test]
fn speaking_signal_defaults_to_not_speaking() {
    let mut flags = SpeakingFlags::default();
    let signal = TtsSpeakingSignal::new(&mut flags);
    assert!(!signal.is_speaking(&flags));
}

#[test]
fn speaking_signal_true_while_session_is_open() {
    let mut flags = SpeakingFlags::default();
    let signal = TtsSpeakingSignal::new(&mut flags);
    signal.set_session_open(&mut flags, true);
    assert!(signal.is_speaking(&flags));
    signal.set_session_open(&mut flags, false);
    assert!(!signal.is_speaking(&flags));
}

#[test]
fn speaking_signal_true_while_sink_is_active_even_with_session_closed() {
    let mut flags = SpeakingFlags::default();
    let signal = TtsSpeakingSignal::new(&mut flags);
    signal.set_sink_active(&mut flags, true);
    assert!(signal.is_speaking(&flags));
    signal.set_sink_active(&mut flags, false);
    assert!(!signal.is_speaking(&flags));
}

#[test]
fn speaking_signal_true_if_either_condition_holds() {
    let mut flags = SpeakingFlags::default();
    let signal = TtsSpeakingSignal::new(&mut flags);
    signal.set_session_open(&mut flags, true);
    signal.set_sink_active(&mut flags, true);
    assert!(signal.is_speaking(&flags));

    signal.set_session_open(&mut flags, false);
    assert!(signal.is_speaking(&flags), "sink still active, must stay true");

    signal.set_sink_active(&mut flags, false);
    assert!(!signal.is_speaking(&flags));
}

#[test]
fn force_clear_resets_both_conditions() {
    let mut flags = SpeakingFlags::default();
    let signal = TtsSpeakingSignal::new(&mut flags);
    signal.set_session_open(&mut flags, true);
    signal.set_sink_active(&mut flags, true);
    signal.force_clear(&mut flags);
    assert!(!signal.is_speaking(&flags));
}

#[test]
fn copies_of_a_speaking_signal_are_one_signal() {
    let mut flags = SpeakingFlags::default();
    let signal = TtsSpeakingSignal::new(&mut flags);
    let other = TtsSpeakingSignal::new(&mut flags);
    let copy = signal.clone();
    copy.set_session_open(&mut flags, true);
    assert!(signal.is_speaking(&flags));
    assert!(!other.is_speaking(&flags));
    signal.set_sink_active(&mut flags, true);
    copy.force_clear(&mut flags);
    assert!(!signal.is_speaking(&flags));
}

#[test]
fn decodes_even_length_chunk_fully() {
    let mut d = PcmDecoder::new();
    let bytes = [1u8, 0, 0xFF, 0xFF];
    assert_eq!(d.decode(&bytes), vec![1i16, -1i16]);
}

#[test]
fn buffers_odd_trailing_byte_across_calls() {
    let mut d = PcmDecoder::new();
    let first = [1u8, 0, 0x34];
    assert_eq!(d.decode(&first), vec![1i16]);
    let second = [0x12u8, 5, 0];
    let decoded = d.decode(&second);
    assert_eq!(decoded[0], i16::from_le_bytes([0x34, 0x12]));
    assert_eq!(decoded[1], 5i16);
}

#[test]
fn empty_input_produces_no_samples() {
    let mut d = PcmDecoder::new();
    assert_eq!(d.decode(&[]), Vec::<i16>::new());
}

fn pcm(samples: &[i16]) -> Vec<u8> {
    samples.iter().flat_map(|s| s.to_le_bytes()).collect()
}

#[test]
fn chunks_play_in_the_order_appended() {
    let mut player = Player::new();
    let mut appended: Vec<Vec<i16>> = vec![];
    appended.extend(player.append(&pcm(&[1, 2])));
    appended.extend(player.append(&pcm(&[3, 4])));
    assert_eq!(appended.as_slice(), &[vec![1i16, 2], vec![3i16, 4]]);
}

#[test]
fn stop_stops_the_sink() {
    let mut player = Player::new();
    player.append(&pcm(&[1]));
    let action = player.step(PlayerInput::Command(PlayerCommand::Stop));
    assert!(matches!(action, PlayerAction::StopSink));
}

#[test]
fn what_is_to_be_played_is_taken_in_order() {
    let mut handle = PlaybackHandle::new();
    handle.enqueue(vec![1, 0]);
    handle.reopen();
    handle.stop();
    assert!(matches!(handle.take(), Some(PlayerCommand::Chunk(b)) if b == vec![1, 0]));
    assert!(matches!(handle.take(), Some(PlayerCommand::Reopen)));
    assert!(matches!(handle.take(), Some(PlayerCommand::Stop)));
    assert!(handle.take().is_none());
}

#[test]
fn samples_do_not_depend_on_how_the_bytes_are_cut() {
    let bytes = pcm(&[1, -2, 300]);
    let mut d = PcmDecoder::new();
    let mut samples = vec![];
    for b in &bytes {
        samples.extend(d.decode(&[*b]));
    }
    assert_eq!(samples, vec![1, -2, 300]);
}

#[test]
fn frames_carry_their_length() {
    assert_eq!(write_frame(&[7, 8]), vec![2, 0, 0, 0, 7, 8]);
    assert_eq!(write_frame(&[]), vec![0, 0, 0, 0]);
}

#[test]
fn the_recogniser_holds_an_utterance_until_it_is_taken() {
    let mut sidecar = SttSidecar::new();
    assert_eq!(sidecar.send_samples(&[1, 2], &[1, 2]).unwrap(), vec![4, 0, 0, 0, 1, 0, 2, 0]);
    assert_eq!(sidecar.pending_audio_duration(), 125_000);
    assert_eq!(sidecar.flush().unwrap(), vec![0, 0, 0, 0]);
    assert_eq!(sidecar.take_utterance(), vec![1, 2]);
    assert_eq!(sidecar.pending_audio_duration(), 0);
    sidecar.send_samples(&[3], &[3]).unwrap();
    assert_eq!(sidecar.discard_pending().unwrap(), vec![1, 0, 0, 0, 0]);
    assert_eq!(sidecar.pending_audio_duration(), 0);
    sidecar.shutdown();
    assert!(sidecar.flush().is_err());
}

#[test]
fn readiness_is_told_once() {
    let mut reader = SidecarReader::new();
    let first = reader.step(ReaderInput::Line(SidecarLine::Ready));
    assert!(matches!(first, ReaderAction::SignalReady(Ok(()))));
    let second = reader.step(ReaderInput::Line(SidecarLine::Ready));
    assert!(!matches!(second, ReaderAction::SignalReady(_)));
    assert!(startup_result(Readiness::TimedOut).is_err());
    assert!(startup_result(Readiness::Signaled(Ok(()))).is_ok());
}

#[test]
fn an_utterance_is_finished_with_its_text() {
    let done = finish_utterance(Ok("hi".to_string()), AudioSource::Microphone, 1, 2);
    let event: SttEvent = done.event.unwrap();
    assert_eq!(event.kind, SttEventKind::Final);
    assert_eq!(event.text, "hi");
    let silent = finish_utterance(Ok(String::new()), AudioSource::Microphone, 1, 2);
    assert!(silent.event.is_none() && silent.error.is_none());
    let failed = finish_utterance(Err(GroqError::Timeout), AudioSource::Microphone, 1, 2);
    assert!(failed.error.unwrap().starts_with("Speech transcription failed: "));
}

fn no_files() -> SidecarFiles {
    SidecarFiles {
        venv_python: None,
        script: "sidecar.py".to_string(),
        script_exists: false,
        frozen: None,
        bundled_model_dir: None,
        dev_model_dir: None,
        end_silence_ms: None,
        vad_gate_enabled: None,
        num_threads: None,
        model_dir: None,
    }
}

#[test]
fn the_recogniser_is_launched_from_what_is_there() {
    let e = plan_launch(AudioSource::Microphone, None, &no_files()).unwrap_err();
    assert!(e.starts_with("STT venv not found"));
    let mut files = no_files();
    files.venv_python = Some("python.exe".to_string());
    let e = plan_launch(AudioSource::Microphone, None, &files).unwrap_err();
    assert_eq!(e, "STT sidecar script not found at sidecar.py");
    files.script_exists = true;
    let launch = plan_launch(AudioSource::Microphone, Some(4), &files).unwrap();
    assert_eq!(launch.executable, "python.exe");
    assert_eq!(launch.args, vec!["sidecar.py".to_string(), "MICROPHONE".to_string()]);
    assert!(launch.env.contains(&("STT_VAD_GATE_ENABLED".to_string(), "false".to_string())));
    assert!(launch.env.contains(&("STT_NUM_THREADS".to_string(), "4".to_string())));
    let mut files = no_files();
    files.frozen = Some("stt.exe".to_string());
    files.dev_model_dir = Some("models".to_string());
    let launch = plan_launch(AudioSource::SystemAudio, None, &files).unwrap();
    assert_eq!(launch.args, vec!["SYSTEM_AUDIO".to_string()]);
    assert!(launch.env.contains(&("STT_MODEL_DIR".to_string(), "models".to_string())));
    assert_eq!(ready_timeout(&None), 20_000);
    assert_eq!(ready_timeout(&Some("5".to_string())), 5);
}

#[test]
fn the_speech_connection_is_talked_to() {
    let mut flux = FluxLoop::new();
    match flux.step(FluxInput::Command(FluxCommand::Speak("hi".to_string()))) {
        FluxAction::Send(text) => assert_eq!(text, r#"{"text":"hi","type":"Speak"}"#),
        other => panic!("{other:?}"),
    }
    assert!(matches!(flux.step(FluxInput::NoCommand), FluxAction::Read));
    assert!(matches!(flux.step(FluxInput::Audio(vec![1])), FluxAction::Deliver(b) if b == vec![1]));
    assert!(matches!(
        flux.step(FluxInput::Text(r#"{"type":"Warning"}"#.to_string())),
        FluxAction::Log { warning: true, .. }
    ));
    assert!(matches!(flux.step(FluxInput::HandleDropped), FluxAction::SendThenRead(_, _)));
    assert!(matches!(flux.step(FluxInput::HandleDropped), FluxAction::Read));
    assert!(matches!(
        flux.step(FluxInput::Command(FluxCommand::Interrupt)),
        FluxAction::SendLast(_, _)
    ));
    match flux.step(FluxInput::SendFailed("gone".to_string())) {
        FluxAction::Fail(e) => assert_eq!(e.message(), "Deepgram Flux connection lost: gone"),
        other => panic!("{other:?}"),
    }
    assert!(matches!(flux.step(FluxInput::Closed), FluxAction::Leave));
    assert_eq!(
        FluxError::ConnectFailed("x".to_string()).message(),
        "failed to connect to Deepgram Flux after 3 attempts: x"
    );
    assert!(FluxSession::new().is_alive());
}

#[test]
fn every_error_has_its_words() {
    assert_eq!(GroqError::Network("x".to_string()).message(), "network error reaching Groq: x");
    assert_eq!(GroqError::Timeout.message(), "Groq request timed out");
    assert_eq!(GroqError::RateLimited.message(), "Groq rate limit hit (429)");
    assert_eq!(
        GroqError::Http { status: 500, body: "b".to_string() }.message(),
        "Groq returned 500: b"
    );
    assert_eq!(
        GroqError::UnexpectedResponse("e".to_string()).message(),
        "Groq returned an unexpected response: e"
    );
    assert_eq!(
        DeepgramError::Network("x".to_string()).message(),
        "network error reaching Deepgram: x"
    );
    assert_eq!(DeepgramError::Timeout.message(), "Deepgram request timed out");
    assert_eq!(DeepgramError::RateLimited.message(), "Deepgram rate limit hit (429)");
}
