//! The process that finds the ends of utterances: how it is launched, what is
//! written to it, and what is made of what it says.
use vstd::prelude::*;
use vstd::string::*;

use crate::audio::{source_name, AudioSource};
use crate::json::opt_view;
use crate::stt::events::{SidecarLine, SttEvent, SttEventKind, SttEventView};
use crate::stt::groq::{encode_pcm16, le32, pcm_bytes, GroqError};
use crate::text::{decimal, decimal_text, millis_setting, setting_or, views};

verus! {

/// How long the process may take to become ready, in milliseconds, where
/// nothing else is set.
pub const DEFAULT_READY_TIMEOUT_MS: u64 = 20_000;

/// How long the process may take to become ready, in milliseconds.
pub fn ready_timeout(setting: &Option<String>) -> (r: u64)
    ensures
        r == setting_or(opt_view(*setting), DEFAULT_READY_TIMEOUT_MS),
{
    millis_setting(setting, DEFAULT_READY_TIMEOUT_MS)
}

/// What was found on disk and among the settings.
#[derive(Debug)]
pub struct SidecarFiles {
    /// The interpreter of the development environment, where there is one.
    pub venv_python: Option<String>,
    pub script: String,
    pub script_exists: bool,
    /// The packaged program, where there is one.
    pub frozen: Option<String>,
    /// The model that is packaged with the application, where there is one.
    pub bundled_model_dir: Option<String>,
    /// The model of the development tree, where there is one.
    pub dev_model_dir: Option<String>,
    pub end_silence_ms: Option<String>,
    pub vad_gate_enabled: Option<String>,
    pub num_threads: Option<String>,
    pub model_dir: Option<String>,
}

/// How the process is launched.
#[derive(Debug)]
pub struct SidecarLaunch {
    pub executable: String,
    pub args: Vec<String>,
    pub env: Vec<(String, String)>,
}

/// The view of a launch.
pub struct SidecarLaunchView {
    pub executable: Seq<char>,
    pub args: Seq<Seq<char>>,
    pub env: Seq<(Seq<char>, Seq<char>)>,
}

/// The views of variables.
pub open spec fn env_views(env: Seq<(String, String)>) -> Seq<(Seq<char>, Seq<char>)> {
    env.map_values(|e: (String, String)| (e.0@, e.1@))
}

impl SidecarLaunch {
    pub open spec fn view(&self) -> SidecarLaunchView {
        SidecarLaunchView {
            executable: self.executable@,
            args: views(self.args@),
            env: env_views(self.env@),
        }
    }
}

/// A variable, where it has a value.
pub open spec fn variable(name: Seq<char>, value: Option<Seq<char>>) -> Seq<
    (Seq<char>, Seq<char>),
> {
    match value {
        Some(v) => seq![(name, v)],
        None => Seq::empty(),
    }
}

/// The first of two optional texts that is there.
pub open spec fn first_of(a: Option<Seq<char>>, b: Option<Seq<char>>) -> Option<Seq<char>> {
    if a is Some {
        a
    } else {
        b
    }
}

/// The variables of the process. `packaged` says that the packaged program is
/// launched.
pub open spec fn launch_env(
    files: SidecarFiles,
    num_threads: Option<u32>,
    packaged: bool,
) -> Seq<(Seq<char>, Seq<char>)> {
    let threads = match num_threads {
        Some(n) => Some(decimal(n as nat)),
        None => opt_view(files.num_threads),
    };
    let bundled = opt_view(files.bundled_model_dir);
    let model = first_of(
        first_of(bundled, opt_view(files.model_dir)),
        if packaged && bundled is None {
            opt_view(files.dev_model_dir)
        } else {
            None
        },
    );
    variable("STT_END_SILENCE_MS"@, opt_view(files.end_silence_ms)) + seq![
        (
            "STT_VAD_GATE_ENABLED"@,
            match opt_view(files.vad_gate_enabled) {
                Some(v) => v,
                None => "false"@,
            },
        ),
    ] + variable("STT_NUM_THREADS"@, threads) + variable("STT_MODEL_DIR"@, model)
}

/// The message where neither environment nor program is found.
pub open spec fn no_sidecar() -> Seq<char> {
    "STT venv not found at streaming_asr_sidecar/.venv — run: py -3 -m venv streaming_asr_sidecar/.venv && streaming_asr_sidecar/.venv/Scripts/python.exe -m pip install sherpa-onnx numpy"@
}

/// How the process is launched: the script under the development environment
/// if there is one, else the packaged program.
pub open spec fn launch(
    source: AudioSource,
    num_threads: Option<u32>,
    files: SidecarFiles,
) -> Result<SidecarLaunchView, Seq<char>> {
    match opt_view(files.venv_python) {
        Some(python) => if files.script_exists {
            Ok(
                SidecarLaunchView {
                    executable: python,
                    args: seq![files.script@, source_name(source)],
                    env: launch_env(files, num_threads, false),
                },
            )
        } else {
            Err("STT sidecar script not found at "@ + files.script@)
        },
        None => match opt_view(files.frozen) {
            Some(program) => Ok(
                SidecarLaunchView {
                    executable: program,
                    args: seq![source_name(source)],
                    env: launch_env(files, num_threads, true),
                },
            ),
            None => Err(no_sidecar()),
        },
    }
}

/// Adds a variable where it has a value.
fn push_variable(env: &mut Vec<(String, String)>, name: &str, value: &Option<String>)
    ensures
        env_views(final(env)@) == env_views(old(env)@) + variable(name@, opt_view(*value)),
{
    match value {
        Some(v) => {
            env.push((name.to_owned(), v.clone()));
        },
        None => {},
    }
    proof {
        assert(env_views(env@) =~= env_views(old(env)@) + variable(name@, opt_view(*value)));
    }
}

fn plan_env(files: &SidecarFiles, num_threads: Option<u32>, packaged: bool) -> (r: Vec<
    (String, String),
>)
    ensures
        env_views(r@) == launch_env(*files, num_threads, packaged),
{
    let mut env: Vec<(String, String)> = Vec::new();
    push_variable(&mut env, "STT_END_SILENCE_MS", &files.end_silence_ms);
    let gate: Option<String> = match &files.vad_gate_enabled {
        Some(v) => Some(v.clone()),
        None => Some("false".to_owned()),
    };
    push_variable(&mut env, "STT_VAD_GATE_ENABLED", &gate);
    let threads: Option<String> = match num_threads {
        Some(n) => Some(decimal_text(n as u64)),
        None => match &files.num_threads {
            Some(v) => Some(v.clone()),
            None => None,
        },
    };
    push_variable(&mut env, "STT_NUM_THREADS", &threads);
    let model: Option<String> = if let Some(dir) = &files.bundled_model_dir {
        Some(dir.clone())
    } else if let Some(dir) = &files.model_dir {
        Some(dir.clone())
    } else if packaged {
        match &files.dev_model_dir {
            Some(dir) => Some(dir.clone()),
            None => None,
        }
    } else {
        None
    };
    push_variable(&mut env, "STT_MODEL_DIR", &model);
    proof {
        assert(env_views(env@) =~= launch_env(*files, num_threads, packaged));
    }
    env
}

/// Decides how the process is launched.
pub fn plan_launch(source: AudioSource, num_threads: Option<u32>, files: &SidecarFiles) -> (r:
    Result<SidecarLaunch, String>)
    ensures
        match r {
            Ok(l) => launch(source, num_threads, *files) == Ok::<SidecarLaunchView, Seq<char>>(l@),
            Err(e) => launch(source, num_threads, *files) == Err::<SidecarLaunchView, Seq<char>>(
                e@,
            ),
        },
{
    if let Some(python) = &files.venv_python {
        if !files.script_exists {
            let mut e: String = "STT sidecar script not found at ".to_owned();
            e.append(files.script.as_str());
            return Err(e);
        }
        let args: Vec<String> = vec![files.script.clone(), source.wire_name().to_owned()];
        let env: Vec<(String, String)> = plan_env(files, num_threads, false);
        proof {
            assert(views(args@) =~= seq![files.script@, source_name(source)]);
        }
        Ok(SidecarLaunch { executable: python.clone(), args, env })
    } else if let Some(program) = &files.frozen {
        let args: Vec<String> = vec![source.wire_name().to_owned()];
        let env: Vec<(String, String)> = plan_env(files, num_threads, true);
        proof {
            assert(views(args@) =~= seq![source_name(source)]);
        }
        Ok(SidecarLaunch { executable: program.clone(), args, env })
    } else {
        Err(
            "STT venv not found at streaming_asr_sidecar/.venv — run: py -3 -m venv streaming_asr_sidecar/.venv && streaming_asr_sidecar/.venv/Scripts/python.exe -m pip install sherpa-onnx numpy".to_owned(),
        )
    }
}

/// What came of waiting for the process to become ready.
#[derive(Debug)]
pub enum Readiness {
    Signaled(Result<(), String>),
    TimedOut,
}

/// Whether the process can be used, given what came of waiting for it.
pub fn startup_result(readiness: Readiness) -> (r: Result<(), String>)
    ensures
        match readiness {
            Readiness::Signaled(Ok(_)) => r is Ok,
            Readiness::Signaled(Err(m)) => r matches Err(e) && e@
                == "STT sidecar failed to start: "@ + m@,
            Readiness::TimedOut => r matches Err(e) && e@
                == "STT sidecar did not become ready in time"@,
        },
{
    match readiness {
        Readiness::Signaled(Ok(_)) => Ok(()),
        Readiness::Signaled(Err(m)) => {
            let mut e: String = "STT sidecar failed to start: ".to_owned();
            e.append(m.as_str());
            Err(e)
        },
        Readiness::TimedOut => Err("STT sidecar did not become ready in time".to_owned()),
    }
}

/// What the thread that reads the process learns.
#[derive(Debug)]
pub enum ReaderInput {
    Line(SidecarLine),
    /// A line that says nothing, or nothing that can be read.
    Unreadable,
    /// The process has ended.
    Ended,
}

/// What the thread that reads the process is to do.
#[derive(Debug)]
pub enum ReaderAction {
    /// Tell whoever waits for the process.
    SignalReady(Result<(), String>),
    /// Take the audio of the utterance and have it transcribed.
    Transcribe { source: AudioSource, start_time: u64, end_time: u64 },
    /// Tell the user.
    Report(String),
    Nothing,
}

/// The view of what the thread is to do.
pub enum ReaderActionView {
    SignalReady(Result<(), Seq<char>>),
    Transcribe { source: AudioSource, start_time: u64, end_time: u64 },
    Report(Seq<char>),
    Nothing,
}

impl ReaderAction {
    pub open spec fn view(&self) -> ReaderActionView {
        match *self {
            ReaderAction::SignalReady(Ok(_)) => ReaderActionView::SignalReady(Ok(())),
            ReaderAction::SignalReady(Err(e)) => ReaderActionView::SignalReady(Err(e@)),
            ReaderAction::Transcribe { source, start_time, end_time } => {
                ReaderActionView::Transcribe { source, start_time, end_time }
            },
            ReaderAction::Report(m) => ReaderActionView::Report(m@),
            ReaderAction::Nothing => ReaderActionView::Nothing,
        }
    }
}

/// What the reader does; `signaled` says whether it has already told whoever
/// waits for the process. Gives the new value of `signaled` and the action.
pub open spec fn reader_step(signaled: bool, input: ReaderInput) -> (bool, ReaderActionView) {
    match input {
        ReaderInput::Line(SidecarLine::Ready) => (
            true,
            if signaled {
                ReaderActionView::Nothing
            } else {
                ReaderActionView::SignalReady(Ok(()))
            },
        ),
        ReaderInput::Line(SidecarLine::Partial { .. }) => (signaled, ReaderActionView::Nothing),
        ReaderInput::Line(SidecarLine::Final { source, start_time, end_time, .. }) => (
            signaled,
            ReaderActionView::Transcribe { source, start_time, end_time },
        ),
        ReaderInput::Line(SidecarLine::Error { message }) => (
            true,
            if signaled {
                ReaderActionView::Report("Speech recognition error: "@ + message@)
            } else {
                ReaderActionView::SignalReady(Err(message@))
            },
        ),
        ReaderInput::Unreadable => (signaled, ReaderActionView::Nothing),
        ReaderInput::Ended => (
            true,
            if signaled {
                ReaderActionView::Nothing
            } else {
                ReaderActionView::SignalReady(Err("STT sidecar exited before signaling ready"@))
            },
        ),
    }
}

/// The thread that reads the process.
#[derive(Debug)]
pub struct SidecarReader {
    signaled: bool,
}

impl SidecarReader {
    /// Whether whoever waits for the process was told.
    pub closed spec fn view(&self) -> bool {
        self.signaled
    }

    pub fn new() -> (r: SidecarReader)
        ensures
            !r@,
    {
        SidecarReader { signaled: false }
    }

    /// Decides what to do with what was read. The process's own text of an
    /// utterance is not used: the audio is transcribed instead.
    pub fn step(&mut self, input: ReaderInput) -> (r: ReaderAction)
        ensures
            (final(self)@, r@) == reader_step(old(self)@, input),
    {
        match input {
            ReaderInput::Line(SidecarLine::Ready) => if self.signaled {
                ReaderAction::Nothing
            } else {
                self.signaled = true;
                ReaderAction::SignalReady(Ok(()))
            },
            ReaderInput::Line(SidecarLine::Partial { .. }) => ReaderAction::Nothing,
            ReaderInput::Line(SidecarLine::Final { text: _, source, start_time, end_time }) => {
                ReaderAction::Transcribe { source, start_time, end_time }
            },
            ReaderInput::Line(SidecarLine::Error { message }) => if self.signaled {
                let mut m: String = "Speech recognition error: ".to_owned();
                m.append(message.as_str());
                ReaderAction::Report(m)
            } else {
                self.signaled = true;
                ReaderAction::SignalReady(Err(message))
            },
            ReaderInput::Unreadable => ReaderAction::Nothing,
            ReaderInput::Ended => if self.signaled {
                ReaderAction::Nothing
            } else {
                self.signaled = true;
                ReaderAction::SignalReady(
                    Err("STT sidecar exited before signaling ready".to_owned()),
                )
            },
        }
    }
}

/// Whoever waits for the process is told exactly once: a step tells them only
/// while they have not been told, and then they have; at the end they have
/// been told in any case.
pub proof fn readiness_is_signaled_once(signaled: bool, input: ReaderInput)
    ensures
        reader_step(signaled, input).1 is SignalReady ==> !signaled,
        !signaled && reader_step(signaled, input).0 ==> reader_step(signaled, input).1
            is SignalReady,
        signaled ==> reader_step(signaled, input).0,
        reader_step(signaled, ReaderInput::Ended).0,
{
}

/// What came of an utterance: an event where it has text, and a message for
/// the user where it could not be transcribed.
#[derive(Debug)]
pub struct UtteranceOutcome {
    pub event: Option<SttEvent>,
    pub error: Option<String>,
}

/// Turns the transcription of an utterance into an event. Nothing is reported
/// of an utterance without text.
pub fn finish_utterance(
    result: Result<String, GroqError>,
    source: AudioSource,
    start_time: u64,
    end_time: u64,
) -> (r: UtteranceOutcome)
    ensures
        match result {
            Ok(text) if text@.len() > 0 => {
                &&& r.event matches Some(e) && e@ == (SttEventView {
                    kind: SttEventKind::Final,
                    text: text@,
                    source,
                    start_time: Some(start_time),
                    end_time: Some(end_time),
                })
                &&& r.error is None
            },
            Ok(_) => r.event is None && r.error is None,
            Err(e) => {
                &&& r.event is None
                &&& opt_view(r.error) == Some("Speech transcription failed: "@ + e@.message())
            },
        },
{
    match result {
        Ok(text) => if text.as_str().is_empty() {
            UtteranceOutcome { event: None, error: None }
        } else {
            let event = SttEvent {
                kind: SttEventKind::Final,
                text,
                source,
                start_time: Some(start_time),
                end_time: Some(end_time),
            };
            UtteranceOutcome { event: Some(event), error: None }
        },
        Err(e) => {
            let mut m: String = "Speech transcription failed: ".to_owned();
            let words: String = e.message();
            m.append(words.as_str());
            UtteranceOutcome { event: None, error: Some(m) }
        },
    }
}

/// A payload with its length before it, as a 32-bit number.
pub open spec fn frame(payload: Seq<u8>) -> Seq<u8> {
    le32((payload.len() % 0x1_0000_0000) as u32) + payload
}

/// Puts the length of a payload before it.
pub fn write_frame(payload: &[u8]) -> (r: Vec<u8>)
    ensures
        r@ == frame(payload@),
{
    let n: u64 = payload.len() as u64 % 0x1_0000_0000;
    let len: u32 = n as u32;
    let mut out: Vec<u8> = vec![
        (len % 256) as u8,
        (len / 256 % 256) as u8,
        (len / 0x1_0000 % 256) as u8,
        (len / 0x100_0000) as u8,
    ];
    let mut i: usize = 0;
    proof {
        assert(out@ =~= le32(len));
        assert(payload@.take(0) =~= Seq::empty());
        assert(le32(len) + Seq::<u8>::empty() =~= le32(len));
    }
    while i < payload.len()
        invariant
            i <= payload@.len(),
            out@ == le32(len) + payload@.take(i as int),
        decreases payload@.len() - i,
    {
        out.push(payload[i]);
        proof {
            assert(payload@.take(i as int + 1) =~= payload@.take(i as int).push(
                payload@[i as int],
            ));
            assert(out@ =~= le32(len) + payload@.take(i as int + 1));
        }
        i += 1;
    }
    proof {
        assert(payload@.take(i as int) =~= payload@);
    }
    out
}

/// The side of the process that is written to: whether it still takes input,
/// and the audio of the utterance so far, each sample as the bits of its
/// float.
#[derive(Debug)]
pub struct SttSidecar {
    open: bool,
    utterance: Vec<u32>,
}

/// The view of the side that is written to.
pub struct SttSidecarView {
    pub open: bool,
    pub utterance: Seq<u32>,
}

/// What is written, or why nothing is.
pub open spec fn written(open: bool, payload: Seq<u8>) -> Result<Seq<u8>, Seq<char>> {
    if open {
        Ok(frame(payload))
    } else {
        Err("sidecar stdin already closed"@)
    }
}

/// The view of bytes to write or an error.
pub open spec fn bytes_result(r: Result<Vec<u8>, String>) -> Result<Seq<u8>, Seq<char>> {
    match r {
        Ok(b) => Ok(b@),
        Err(e) => Err(e@),
    }
}

fn checked_frame(open: bool, payload: &[u8]) -> (r: Result<Vec<u8>, String>)
    ensures
        bytes_result(r) == written(open, payload@),
{
    if open {
        Ok(write_frame(payload))
    } else {
        Err("sidecar stdin already closed".to_owned())
    }
}

impl SttSidecar {
    pub closed spec fn view(&self) -> SttSidecarView {
        SttSidecarView { open: self.open, utterance: self.utterance@ }
    }

    /// A process that has just become ready.
    pub fn new() -> (r: SttSidecar)
        ensures
            r@ == (SttSidecarView { open: true, utterance: Seq::empty() }),
    {
        SttSidecar { open: true, utterance: Vec::new() }
    }

    /// Adds audio to the utterance and gives the bytes to write: `raw` are the
    /// samples as they are kept, `pcm` the same samples as they are sent. The
    /// utterance grows even where nothing can be written any more.
    pub fn send_samples(&mut self, raw: &[u32], pcm: &[i16]) -> (r: Result<Vec<u8>, String>)
        ensures
            final(self)@ == (SttSidecarView {
                utterance: old(self)@.utterance + raw@,
                ..old(self)@
            }),
            bytes_result(r) == written(old(self)@.open, pcm_bytes(pcm@)),
    {
        let ghost before = self.utterance@;
        let mut i: usize = 0;
        proof {
            assert(raw@.take(0) =~= Seq::empty());
            assert(before + Seq::<u32>::empty() =~= before);
        }
        while i < raw.len()
            invariant
                i <= raw@.len(),
                self.open == old(self)@.open,
                self.utterance@ == before + raw@.take(i as int),
            decreases raw@.len() - i,
        {
            self.utterance.push(raw[i]);
            proof {
                assert(raw@.take(i as int + 1) =~= raw@.take(i as int).push(raw@[i as int]));
                assert(self.utterance@ =~= before + raw@.take(i as int + 1));
            }
            i += 1;
        }
        proof {
            assert(raw@.take(i as int) =~= raw@);
        }
        let payload: Vec<u8> = encode_pcm16(pcm);
        checked_frame(self.open, payload.as_slice())
    }

    /// How much audio the utterance has, in nanoseconds at `TARGET_SAMPLE_RATE`
    /// samples per second.
    pub fn pending_audio_duration(&self) -> (r: u128)
        ensures
            r == self@.utterance.len() * 62_500,
    {
        self.utterance.len() as u128 * 62_500
    }

    /// Asks for the utterance to be ended.
    pub fn flush(&self) -> (r: Result<Vec<u8>, String>)
        ensures
            bytes_result(r) == written(self@.open, Seq::empty()),
    {
        let nothing: Vec<u8> = Vec::new();
        checked_frame(self.open, nothing.as_slice())
    }

    /// Forgets the utterance, here and in the process.
    pub fn discard_pending(&mut self) -> (r: Result<Vec<u8>, String>)
        ensures
            final(self)@ == (SttSidecarView { utterance: Seq::empty(), ..old(self)@ }),
            bytes_result(r) == written(old(self)@.open, seq![0u8]),
    {
        self.utterance = Vec::new();
        let mark: Vec<u8> = vec![0u8];
        proof {
            assert(mark@ =~= seq![0u8]);
        }
        checked_frame(self.open, mark.as_slice())
    }

    /// Takes the audio of the utterance and starts the next one.
    pub fn take_utterance(&mut self) -> (r: Vec<u32>)
        ensures
            r@ == old(self)@.utterance,
            final(self)@ == (SttSidecarView { utterance: Seq::empty(), ..old(self)@ }),
    {
        let mut taken: Vec<u32> = Vec::new();
        std::mem::swap(&mut self.utterance, &mut taken);
        taken
    }

    /// Nothing more is written.
    pub fn shutdown(&mut self)
        ensures
            final(self)@ == (SttSidecarView { open: false, ..old(self)@ }),
    {
        self.open = false;
    }
}

/// The three kinds of frame are told apart by their bytes: audio, the end of
/// an utterance and the forgetting of one are never the same frame.
pub proof fn frames_are_told_apart(audio: Seq<i16>)
    requires
        audio.len() > 0,
    ensures
        frame(pcm_bytes(audio)) != frame(Seq::empty()),
        frame(pcm_bytes(audio)) != frame(seq![0u8]),
        frame(seq![0u8]) != frame(Seq::empty()),
{
    crate::stt::groq::decoding_undoes_encoding(audio);
    assert(pcm_bytes(audio).len() >= 2);
    assert(frame(pcm_bytes(audio)).len() == 4 + pcm_bytes(audio).len());
    assert(frame(seq![0u8]).len() == 5);
    assert(frame(Seq::<u8>::empty()).len() == 4);
}

/// The length before a payload is the length of the payload, so that frames
/// that are written one after the other can be taken apart again.
pub proof fn frame_length_is_read_back(payload: Seq<u8>)
    requires
        payload.len() <= u32::MAX,
    ensures
        ({
            let f = frame(payload);
            &&& f.len() == 4 + payload.len()
            &&& f[0] + 0x100 * f[1] + 0x1_0000 * f[2] + 0x100_0000 * f[3] == payload.len()
            &&& f.skip(4) == payload
        }),
{
    let f = frame(payload);
    let n = payload.len() as int;
    assert(f.skip(4) =~= payload);
    assert(f[0] == n % 256 && f[1] == n / 256 % 256 && f[2] == n / 0x1_0000 % 256 && f[3] == n
        / 0x100_0000);
}

/// Whether a variable is set to a value, and to no other.
pub open spec fn sets(
    env: Seq<(Seq<char>, Seq<char>)>,
    name: Seq<char>,
    value: Option<Seq<char>>,
) -> bool {
    forall|v: Seq<char>| #[trigger] env.contains((name, v)) <==> value == Some(v)
}

/// The process is started with the source that it listens to and with the
/// settings that there are: a number of threads that is asked for goes before
/// that of the environment, and a model that is packaged before any other.
pub proof fn the_settings_are_handed_on(
    source: AudioSource,
    num_threads: Option<u32>,
    files: SidecarFiles,
)
    ensures
        match launch(source, num_threads, files) {
            Ok(l) => {
                &&& l.args.len() > 0 && l.args.last() == source_name(source)
                &&& opt_view(files.venv_python) matches Some(p) ==> l.executable == p && l.args
                    == seq![files.script@, source_name(source)] && files.script_exists
                &&& files.venv_python is None ==> Some(l.executable) == opt_view(files.frozen)
                    && l.args.len() == 1
                &&& sets(l.env, "STT_END_SILENCE_MS"@, opt_view(files.end_silence_ms))
                &&& sets(
                    l.env,
                    "STT_VAD_GATE_ENABLED"@,
                    Some(
                        match files.vad_gate_enabled {
                            Some(v) => v@,
                            None => "false"@,
                        },
                    ),
                )
                &&& num_threads matches Some(n) ==> sets(
                    l.env,
                    "STT_NUM_THREADS"@,
                    Some(decimal(n as nat)),
                )
                &&& num_threads is None ==> sets(
                    l.env,
                    "STT_NUM_THREADS"@,
                    opt_view(files.num_threads),
                )
                &&& files.bundled_model_dir is Some ==> sets(
                    l.env,
                    "STT_MODEL_DIR"@,
                    opt_view(files.bundled_model_dir),
                )
                &&& files.bundled_model_dir is None && files.model_dir is Some ==> sets(
                    l.env,
                    "STT_MODEL_DIR"@,
                    opt_view(files.model_dir),
                )
                &&& files.bundled_model_dir is None && files.model_dir is None ==> sets(
                    l.env,
                    "STT_MODEL_DIR"@,
                    if files.venv_python is None {
                        opt_view(files.dev_model_dir)
                    } else {
                        None
                    },
                )
            },
            Err(_) => if files.venv_python is Some {
                !files.script_exists
            } else {
                files.frozen is None
            },
        },
{
    let packaged = files.venv_python is None;
    let env = launch_env(files, num_threads, packaged);
    let threads = match num_threads {
        Some(n) => Some(decimal(n as nat)),
        None => opt_view(files.num_threads),
    };
    let bundled = opt_view(files.bundled_model_dir);
    let model = first_of(
        first_of(bundled, opt_view(files.model_dir)),
        if packaged && bundled is None {
            opt_view(files.dev_model_dir)
        } else {
            None
        },
    );
    variables_differ();
    four_variables(
        opt_view(files.end_silence_ms),
        match opt_view(files.vad_gate_enabled) {
            Some(v) => v,
            None => "false"@,
        },
        threads,
        model,
    );
}

proof fn four_variables(
    silence: Option<Seq<char>>,
    gate: Seq<char>,
    threads: Option<Seq<char>>,
    model: Option<Seq<char>>,
)
    requires
        "STT_END_SILENCE_MS"@ != "STT_VAD_GATE_ENABLED"@,
        "STT_END_SILENCE_MS"@ != "STT_NUM_THREADS"@,
        "STT_END_SILENCE_MS"@ != "STT_MODEL_DIR"@,
        "STT_VAD_GATE_ENABLED"@ != "STT_NUM_THREADS"@,
        "STT_VAD_GATE_ENABLED"@ != "STT_MODEL_DIR"@,
        "STT_NUM_THREADS"@ != "STT_MODEL_DIR"@,
    ensures
        ({
            let env = variable("STT_END_SILENCE_MS"@, silence) + seq![
                ("STT_VAD_GATE_ENABLED"@, gate),
            ] + variable("STT_NUM_THREADS"@, threads) + variable("STT_MODEL_DIR"@, model);
            &&& sets(env, "STT_END_SILENCE_MS"@, silence)
            &&& sets(env, "STT_VAD_GATE_ENABLED"@, Some(gate))
            &&& sets(env, "STT_NUM_THREADS"@, threads)
            &&& sets(env, "STT_MODEL_DIR"@, model)
        }),
{
    let a = variable("STT_END_SILENCE_MS"@, silence);
    let b = seq![("STT_VAD_GATE_ENABLED"@, gate)];
    let c = variable("STT_NUM_THREADS"@, threads);
    let d = variable("STT_MODEL_DIR"@, model);
    let env = a + b + c + d;
    if silence is Some {
        assert(env[0] == a[0]);
    }
    assert(env[a.len() as int] == b[0]);
    if threads is Some {
        assert(env[a.len() as int + 1] == c[0]);
    }
    if model is Some {
        assert(env[a.len() as int + 1 + c.len()] == d[0]);
    }
    assert forall|e: (Seq<char>, Seq<char>)| #[trigger] env.contains(e) implies a.contains(e)
        || b.contains(e) || c.contains(e) || d.contains(e) by {
        let i = choose|i: int| 0 <= i < env.len() && env[i] == e;
        if i < a.len() {
            assert(a[i] == e);
        } else if i < a.len() + 1 {
            assert(b[i - a.len()] == e);
        } else if i < a.len() + 1 + c.len() {
            assert(c[i - a.len() - 1] == e);
        } else {
            assert(d[i - a.len() - 1 - c.len()] == e);
        }
    }
}

proof fn variables_differ()
    ensures
        "STT_END_SILENCE_MS"@ != "STT_VAD_GATE_ENABLED"@,
        "STT_END_SILENCE_MS"@ != "STT_NUM_THREADS"@,
        "STT_END_SILENCE_MS"@ != "STT_MODEL_DIR"@,
        "STT_VAD_GATE_ENABLED"@ != "STT_NUM_THREADS"@,
        "STT_VAD_GATE_ENABLED"@ != "STT_MODEL_DIR"@,
        "STT_NUM_THREADS"@ != "STT_MODEL_DIR"@,
{
    reveal_strlit("STT_END_SILENCE_MS");
    reveal_strlit("STT_VAD_GATE_ENABLED");
    reveal_strlit("STT_NUM_THREADS");
    reveal_strlit("STT_MODEL_DIR");
    assert("STT_END_SILENCE_MS"@.len() == 18);
    assert("STT_VAD_GATE_ENABLED"@.len() == 20);
    assert("STT_NUM_THREADS"@.len() == 15);
    assert("STT_MODEL_DIR"@.len() == 13);
}

/// A finished utterance is transcribed with the times it came with, whatever else
/// has been told; an error is told to whoever waits, or else to the user, in its
/// own words; and a line of no interest changes nothing.
pub proof fn every_line_is_acted_on(signaled: bool, input: ReaderInput)
    ensures
        match input {
            ReaderInput::Line(SidecarLine::Final { source: s, start_time, end_time, .. }) => {
                reader_step(signaled, input).1 == (ReaderActionView::Transcribe {
                    source: s,
                    start_time,
                    end_time,
                })
            },
            _ => !(reader_step(signaled, input).1 is Transcribe),
        },
        input matches ReaderInput::Line(SidecarLine::Error { message }) ==> reader_step(
            false,
            input,
        ).1 == ReaderActionView::SignalReady(Err(message@)) && reader_step(true, input).1
            == ReaderActionView::Report("Speech recognition error: "@ + message@),
        reader_step(signaled, input).1 == ReaderActionView::SignalReady(Ok(())) <==> !signaled
            && input == ReaderInput::Line(SidecarLine::Ready),
        input is Unreadable ==> reader_step(signaled, input) == (
            signaled,
            ReaderActionView::Nothing,
        ),
        input matches ReaderInput::Line(SidecarLine::Partial { .. }) ==> reader_step(
            signaled,
            input,
        ) == (signaled, ReaderActionView::Nothing),
{
}

} // verus!
