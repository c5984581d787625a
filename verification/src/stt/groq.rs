//! Transcription of one utterance by a service: when it is asked, what it is
//! sent, and which of its answers are believed.
use vstd::prelude::*;
use vstd::string::*;

use crate::http_status::is_success;
use crate::json::{
    json_parse, json_views, opt_view, read_json, Json, JsonNumber, JsonNumberView, JsonView,
    UNREADABLE_BODY,
};
use crate::text::{decimal, decimal_text, millis_setting, setting_or, trim, trimmed};
use crate::tts::deepgram::usable_key;
use crate::tts::player::{sample, samples};

verus! {

pub const LANGUAGE_HINT: &'static str = "en";

pub const TRANSCRIPTIONS_URL: &'static str = "https://api.groq.com/openai/v1/audio/transcriptions";

pub const MODEL: &'static str = "whisper-large-v3-turbo";

/// How long a request may take, in milliseconds, where nothing else is set.
pub const DEFAULT_TIMEOUT_MS: u64 = 15_000;

/// Why an utterance could not be transcribed.
#[derive(Debug)]
pub enum GroqError {
    MissingKey,
    Network(String),
    Timeout,
    RateLimited,
    Http { status: u16, body: String },
    UnexpectedResponse(String),
}

/// The view of an error.
pub enum GroqErrorView {
    MissingKey,
    Network(Seq<char>),
    Timeout,
    RateLimited,
    Http { status: u16, body: Seq<char> },
    UnexpectedResponse(Seq<char>),
}

impl GroqErrorView {
    /// The words for the error.
    pub open spec fn message(self) -> Seq<char> {
        match self {
            GroqErrorView::MissingKey => "no Groq API key configured (Settings -> API Keys)"@,
            GroqErrorView::Network(e) => "network error reaching Groq: "@ + e,
            GroqErrorView::Timeout => "Groq request timed out"@,
            GroqErrorView::RateLimited => "Groq rate limit hit (429)"@,
            GroqErrorView::Http { status, body } => "Groq returned "@ + decimal(status as nat)
                + ": "@ + body,
            GroqErrorView::UnexpectedResponse(e) => "Groq returned an unexpected response: "@ + e,
        }
    }
}

impl GroqError {
    pub open spec fn view(&self) -> GroqErrorView {
        match *self {
            GroqError::MissingKey => GroqErrorView::MissingKey,
            GroqError::Network(e) => GroqErrorView::Network(e@),
            GroqError::Timeout => GroqErrorView::Timeout,
            GroqError::RateLimited => GroqErrorView::RateLimited,
            GroqError::Http { status, body } => GroqErrorView::Http { status, body: body@ },
            GroqError::UnexpectedResponse(e) => GroqErrorView::UnexpectedResponse(e@),
        }
    }

    /// The words for the error.
    pub fn message(&self) -> (r: String)
        ensures
            r@ == self@.message(),
    {
        match self {
            GroqError::MissingKey => "no Groq API key configured (Settings -> API Keys)".to_owned(),
            GroqError::Network(e) => {
                let mut m: String = "network error reaching Groq: ".to_owned();
                m.append(e.as_str());
                m
            },
            GroqError::Timeout => "Groq request timed out".to_owned(),
            GroqError::RateLimited => "Groq rate limit hit (429)".to_owned(),
            GroqError::Http { status, body } => {
                let mut m: String = "Groq returned ".to_owned();
                let code: String = decimal_text(*status as u64);
                m.append(code.as_str());
                m.append(": ");
                m.append(body.as_str());
                m
            },
            GroqError::UnexpectedResponse(e) => {
                let mut m: String = "Groq returned an unexpected response: ".to_owned();
                m.append(e.as_str());
                m
            },
        }
    }
}

/// How long a request may take, in milliseconds.
pub fn request_timeout(setting: &Option<String>) -> (r: u64)
    ensures
        r == setting_or(opt_view(*setting), DEFAULT_TIMEOUT_MS),
{
    millis_setting(setting, DEFAULT_TIMEOUT_MS)
}

/// The key to use, given what is stored.
pub fn api_key(stored: Option<String>) -> (r: Result<String, GroqError>)
    ensures
        match usable_key(opt_view(stored)) {
            Some(k) => r matches Ok(key) && key@ == k,
            None => r matches Err(e) && e is MissingKey,
        },
{
    match stored {
        Some(key) => {
            let t: String = trimmed(key.as_str());
            if t.as_str().is_empty() {
                Err(GroqError::MissingKey)
            } else {
                Ok(key)
            }
        },
        None => Err(GroqError::MissingKey),
    }
}

/// The key to send an utterance with, or nothing where its text is known to be
/// empty: without samples, and where they are too quiet to be speech. Then no
/// key is asked for.
pub fn plan_transcription(
    sample_count: usize,
    too_quiet: bool,
    stored_key: Option<String>,
) -> (r: Result<Option<String>, GroqError>)
    ensures
        if sample_count == 0 || too_quiet {
            r matches Ok(None)
        } else {
            match usable_key(opt_view(stored_key)) {
                Some(k) => r matches Ok(Some(key)) && key@ == k,
                None => r matches Err(e) && e is MissingKey,
            }
        },
{
    if sample_count == 0 || too_quiet {
        return Ok(None);
    }
    match api_key(stored_key) {
        Ok(key) => Ok(Some(key)),
        Err(e) => Err(e),
    }
}

/// The bits of the double nearest to six tenths.
pub const NO_SPEECH_PROB_BITS: u64 = 0x3FE3_3333_3333_3333;

/// The bits of the double minus one.
pub const AVG_LOGPROB_BITS: u64 = 0xBFF0_0000_0000_0000;

/// The bits of the infinite doubles, positive and negative. The doubles that
/// are numbers have bits up to the first one and from the sign bit up to the
/// second one.
pub const INFINITY_BITS: u64 = 0x7FF0_0000_0000_0000;

pub const NEGATIVE_INFINITY_BITS: u64 = 0xFFF0_0000_0000_0000;

/// The number is at least the threshold for "this is no speech". Doubles that
/// are not negative are ordered as their bits are.
pub open spec fn reaches_no_speech(n: JsonNumberView) -> bool {
    match n {
        JsonNumberView::Unsigned(u) => u >= 1,
        JsonNumberView::Negative(_) => false,
        JsonNumberView::Float { bits, .. } => NO_SPEECH_PROB_BITS <= bits <= INFINITY_BITS,
    }
}

/// The number is at most the threshold for "this is a guess". Negative doubles
/// are ordered against their bits.
pub open spec fn reaches_guess(n: JsonNumberView) -> bool {
    match n {
        JsonNumberView::Unsigned(_) => false,
        JsonNumberView::Negative(i) => i <= -1,
        JsonNumberView::Float { bits, .. } => AVG_LOGPROB_BITS <= bits <= NEGATIVE_INFINITY_BITS,
    }
}

/// One segment of a transcription is doubtful.
pub open spec fn doubtful(segment: JsonView) -> bool {
    ||| segment.get("no_speech_prob"@) matches Some(JsonView::Number(n)) && reaches_no_speech(n)
    ||| segment.get("avg_logprob"@) matches Some(JsonView::Number(n)) && reaches_guess(n)
}

/// A transcription that is most likely made up: it has segments, and all of
/// them are doubtful.
pub open spec fn hallucinated(response: JsonView) -> bool {
    match response.array_field("segments"@) {
        Some(segments) => segments.len() > 0 && forall|i: int|
            0 <= i < segments.len() ==> #[trigger] doubtful(segments[i]),
        None => false,
    }
}

fn no_speech(n: &JsonNumber) -> (r: bool)
    ensures
        r == reaches_no_speech(n@),
{
    match n {
        JsonNumber::Unsigned(u) => *u >= 1,
        JsonNumber::Negative(_) => false,
        JsonNumber::Float { bits, .. } => NO_SPEECH_PROB_BITS <= *bits && *bits <= INFINITY_BITS,
    }
}

fn guess(n: &JsonNumber) -> (r: bool)
    ensures
        r == reaches_guess(n@),
{
    match n {
        JsonNumber::Unsigned(_) => false,
        JsonNumber::Negative(i) => *i <= -1,
        JsonNumber::Float { bits, .. } => AVG_LOGPROB_BITS <= *bits && *bits
            <= NEGATIVE_INFINITY_BITS,
    }
}

fn is_doubtful(segment: &Json) -> (r: bool)
    ensures
        r == doubtful(segment@),
{
    let silent: bool = match segment.get("no_speech_prob") {
        Some(Json::Number(n)) => no_speech(n),
        _ => false,
    };
    let guessed: bool = match segment.get("avg_logprob") {
        Some(Json::Number(n)) => guess(n),
        _ => false,
    };
    silent || guessed
}

/// Whether a transcription is most likely made up. Without segments it is
/// believed, and one segment that is not doubtful is enough to believe it.
pub fn is_likely_hallucination(response: &Json) -> (r: bool)
    ensures
        r == hallucinated(response@),
{
    match response.array_field("segments") {
        None => false,
        Some(segments) => {
            if segments.len() == 0 {
                return false;
            }
            let mut i: usize = 0;
            while i < segments.len()
                invariant
                    i <= segments@.len(),
                    response@.array_field("segments"@) == Some(json_views(segments@)),
                    forall|j: int|
                        0 <= j < i ==> #[trigger] doubtful(json_views(segments@)[j]),
                decreases segments@.len() - i,
            {
                if !is_doubtful(&segments[i]) {
                    proof {
                        assert(!doubtful(json_views(segments@)[i as int]));
                    }
                    return false;
                }
                proof {
                    assert(doubtful(json_views(segments@)[i as int]));
                }
                i += 1;
            }
            true
        },
    }
}

/// The text of a transcription: trimmed, and empty where it is most likely
/// made up.
pub open spec fn transcription_text(response: JsonView) -> Seq<char> {
    let text = match response.str_field("text"@) {
        Some(t) => trim(t),
        None => Seq::empty(),
    };
    if text.len() > 0 && hallucinated(response) {
        Seq::empty()
    } else {
        text
    }
}

/// Reads the text of a transcription.
pub fn transcription(response: &Json) -> (r: String)
    ensures
        r@ == transcription_text(response@),
{
    let text: String = match response.str_field("text") {
        Some(t) => trimmed(t.as_str()),
        None => {
            let empty: String = String::new();
            empty
        },
    };
    if text.as_str().is_empty() {
        return text;
    }
    if is_likely_hallucination(response) {
        String::new()
    } else {
        text
    }
}

/// The result of a request, given the status and the body of the answer.
pub open spec fn response_result(status: u16, body: Seq<char>) -> Result<
    Seq<char>,
    GroqErrorView,
> {
    if status == 429 {
        Err(GroqErrorView::RateLimited)
    } else if !is_success(status) {
        Err(GroqErrorView::Http { status, body })
    } else {
        match json_parse(body) {
            Ok(response) => Ok(transcription_text(response)),
            Err(_) => Err(GroqErrorView::UnexpectedResponse(UNREADABLE_BODY@)),
        }
    }
}

/// Reads the answer to a request.
pub fn read_response(status: u16, body: &str) -> (r: Result<String, GroqError>)
    ensures
        match r {
            Ok(text) => response_result(status, body@) == Ok::<Seq<char>, GroqErrorView>(text@),
            Err(e) => response_result(status, body@) == Err::<Seq<char>, GroqErrorView>(e@),
        },
{
    if status == 429 {
        return Err(GroqError::RateLimited);
    }
    if !(200 <= status && status < 300) {
        return Err(GroqError::Http { status, body: body.to_owned() });
    }
    match read_json(body) {
        Ok(response) => Ok(transcription(&response)),
        Err(_) => Err(GroqError::UnexpectedResponse(UNREADABLE_BODY.to_owned())),
    }
}

/// A 16-bit number in two bytes, the low one first.
pub open spec fn le16(n: u16) -> Seq<u8> {
    seq![(n % 256) as u8, (n / 256) as u8]
}

/// A 32-bit number in four bytes, the lowest one first.
pub open spec fn le32(n: u32) -> Seq<u8> {
    seq![
        (n % 256) as u8,
        (n / 256 % 256) as u8,
        (n / 0x1_0000 % 256) as u8,
        (n / 0x100_0000) as u8,
    ]
}

/// A sample as an unsigned 16-bit number, in two's complement.
pub open spec fn unsigned(s: i16) -> u16 {
    if s < 0 {
        (s + 0x1_0000) as u16
    } else {
        s as u16
    }
}

/// Samples one after the other, two bytes each.
pub open spec fn pcm_bytes(samples: Seq<i16>) -> Seq<u8>
    decreases samples.len(),
{
    if samples.len() == 0 {
        Seq::empty()
    } else {
        pcm_bytes(samples.drop_last()) + le16(unsigned(samples.last()))
    }
}

/// The header of a WAV file with one channel of 16-bit samples.
pub open spec fn wav_header(data_len: u32, sample_rate: u32) -> Seq<u8> {
    seq![0x52u8, 0x49, 0x46, 0x46] + le32((36 + data_len) as u32) + seq![
        0x57u8,
        0x41,
        0x56,
        0x45,
        0x66,
        0x6D,
        0x74,
        0x20,
    ] + le32(16) + le16(1) + le16(1) + le32(sample_rate) + le32((sample_rate * 2) as u32) + le16(2)
        + le16(16) + seq![0x64u8, 0x61, 0x74, 0x61] + le32(data_len)
}

fn push_bytes(out: &mut Vec<u8>, bytes: Vec<u8>)
    ensures
        final(out)@ == old(out)@ + bytes@,
{
    let mut rest: Vec<u8> = bytes;
    out.append(&mut rest);
}

fn push_le16(out: &mut Vec<u8>, n: u16)
    ensures
        final(out)@ == old(out)@ + le16(n),
{
    out.push((n % 256) as u8);
    out.push((n / 256) as u8);
    proof {
        assert(out@ =~= old(out)@ + le16(n));
    }
}

fn push_le32(out: &mut Vec<u8>, n: u32)
    ensures
        final(out)@ == old(out)@ + le32(n),
{
    out.push((n % 256) as u8);
    out.push((n / 256 % 256) as u8);
    out.push((n / 0x1_0000 % 256) as u8);
    out.push((n / 0x100_0000) as u8);
    proof {
        assert(out@ =~= old(out)@ + le32(n));
    }
}

fn to_unsigned(s: i16) -> (r: u16)
    ensures
        r == unsigned(s),
{
    let n: i32 = s as i32;
    if n < 0 {
        (n + 0x1_0000) as u16
    } else {
        n as u16
    }
}

/// Samples one after the other, two bytes each.
pub fn encode_pcm16(samples: &[i16]) -> (r: Vec<u8>)
    ensures
        r@ == pcm_bytes(samples@),
{
    let mut out: Vec<u8> = Vec::new();
    let mut i: usize = 0;
    proof {
        assert(samples@.take(0) =~= Seq::empty());
    }
    while i < samples.len()
        invariant
            i <= samples@.len(),
            out@ == pcm_bytes(samples@.take(i as int)),
        decreases samples@.len() - i,
    {
        push_le16(&mut out, to_unsigned(samples[i]));
        proof {
            let next = samples@.take(i as int + 1);
            assert(next.drop_last() =~= samples@.take(i as int));
        }
        i += 1;
    }
    proof {
        assert(samples@.take(i as int) =~= samples@);
    }
    out
}

/// A WAV file of one channel of 16-bit samples. The lengths in its header are
/// 32-bit numbers.
pub fn encode_wav_pcm16(samples: &[i16], sample_rate: u32) -> (r: Vec<u8>)
    requires
        2 * samples@.len() + 36 <= u32::MAX,
        2 * sample_rate <= u32::MAX,
    ensures
        r@ == wav_header((2 * samples@.len()) as u32, sample_rate) + pcm_bytes(samples@),
{
    let data_len: u32 = (samples.len() as u32) * 2;
    let mut out: Vec<u8> = vec![0x52u8, 0x49, 0x46, 0x46];
    push_le32(&mut out, 36 + data_len);
    push_bytes(&mut out, vec![0x57u8, 0x41, 0x56, 0x45, 0x66, 0x6D, 0x74, 0x20]);
    push_le32(&mut out, 16);
    push_le16(&mut out, 1);
    push_le16(&mut out, 1);
    push_le32(&mut out, sample_rate);
    push_le32(&mut out, sample_rate * 2);
    push_le16(&mut out, 2);
    push_le16(&mut out, 16);
    push_bytes(&mut out, vec![0x64u8, 0x61, 0x74, 0x61]);
    push_le32(&mut out, data_len);
    push_bytes(&mut out, encode_pcm16(samples));
    out
}

/// A WAV file is its header of 44 bytes and two bytes per sample.
pub proof fn wav_length(samples: Seq<i16>, sample_rate: u32)
    requires
        2 * samples.len() + 36 <= u32::MAX,
    ensures
        wav_header((2 * samples.len()) as u32, sample_rate).len() == 44,
        (wav_header((2 * samples.len()) as u32, sample_rate) + pcm_bytes(samples)).len() == 44 + 2
            * samples.len(),
{
    pcm_length(samples);
}

proof fn pcm_length(samples: Seq<i16>)
    ensures
        pcm_bytes(samples).len() == 2 * samples.len(),
    decreases samples.len(),
{
    if samples.len() > 0 {
        pcm_length(samples.drop_last());
    }
}

/// Decoding the bytes of samples gives the samples back.
pub proof fn decoding_undoes_encoding(s: Seq<i16>)
    ensures
        samples(pcm_bytes(s)) == s,
    decreases s.len(),
{
    pcm_length(s);
    if s.len() == 0 {
        assert(samples(pcm_bytes(s)) =~= s);
    } else {
        let rest = s.drop_last();
        decoding_undoes_encoding(rest);
        pcm_length(rest);
        let bytes = pcm_bytes(s);
        let before = pcm_bytes(rest);
        assert forall|i: int| 0 <= i < s.len() implies samples(bytes)[i] == s[i] by {
            if i < rest.len() {
                assert(bytes[2 * i] == before[2 * i]);
                assert(bytes[2 * i + 1] == before[2 * i + 1]);
                assert(samples(before)[i] == rest[i]);
            } else {
                assert(bytes[2 * i] == le16(unsigned(s.last()))[0]);
                assert(bytes[2 * i + 1] == le16(unsigned(s.last()))[1]);
            }
        }
        assert(samples(bytes) =~= s);
    }
}

/// What was heard is kept, without the space around it, unless there is reason to
/// doubt all of it: one piece that gives no such reason is enough. Where every
/// piece is likely no speech, or a guess, nothing was heard.
pub proof fn what_was_heard_is_kept_unless_doubted(
    response: JsonView,
    text: Seq<char>,
    segments: Seq<JsonView>,
    i: int,
)
    requires
        response.get("text"@) == Some(JsonView::Text(text)),
    ensures
        !(response.get("segments"@) matches Some(JsonView::Array(_))) ==> transcription_text(
            response,
        ) == trim(text),
        response.get("segments"@) == Some(JsonView::Array(Seq::empty())) ==> transcription_text(
            response,
        ) == trim(text),
        response.get("segments"@) == Some(JsonView::Array(segments)) && 0 <= i < segments.len()
            && !(segments[i].get("no_speech_prob"@) matches Some(JsonView::Number(_))) && !(
        segments[i].get("avg_logprob"@) matches Some(JsonView::Number(_))) ==> transcription_text(
            response,
        ) == trim(text),
        response.get("segments"@) == Some(JsonView::Array(segments)) && 0 <= i < segments.len() && (
        match segments[i].get("no_speech_prob"@) {
            Some(JsonView::Number(JsonNumberView::Float { bits, .. })) => bits
                < 0x3FE3_3333_3333_3333,
            Some(JsonView::Number(JsonNumberView::Unsigned(n))) => n == 0,
            _ => false,
        }) && (match segments[i].get("avg_logprob"@) {
            Some(JsonView::Number(JsonNumberView::Float { bits, .. })) => bits
                < 0xBFF0_0000_0000_0000,
            Some(JsonView::Number(JsonNumberView::Unsigned(_))) => true,
            _ => false,
        }) ==> transcription_text(response) == trim(text),
        response.get("segments"@) == Some(JsonView::Array(segments)) && segments.len() > 0 && (
        forall|k: int|
            0 <= k < segments.len() ==> match (#[trigger] segments[k]).get("no_speech_prob"@) {
                Some(JsonView::Number(JsonNumberView::Float { bits, .. })) => {
                    0x3FE3_3333_3333_3333 <= bits <= 0x3FF0_0000_0000_0000
                },
                Some(JsonView::Number(JsonNumberView::Unsigned(n))) => n == 1,
                _ => false,
            }) ==> transcription_text(response).len() == 0,
        response.get("segments"@) == Some(JsonView::Array(segments)) && segments.len() > 0 && (
        forall|k: int|
            0 <= k < segments.len() ==> match (#[trigger] segments[k]).get("avg_logprob"@) {
                Some(JsonView::Number(JsonNumberView::Float { bits, .. })) => {
                    0xBFF0_0000_0000_0000 <= bits <= 0xFFF0_0000_0000_0000
                },
                Some(JsonView::Number(JsonNumberView::Negative(n))) => n < 0,
                _ => false,
            }) ==> transcription_text(response).len() == 0,
{
    if response.get("segments"@) == Some(JsonView::Array(segments)) {
        assert(response.array_field("segments"@) == Some(segments));
        if 0 <= i < segments.len() && !doubtful(segments[i]) {
            assert(!hallucinated(response));
        }
    }
}

/// The least significant byte comes first.
pub proof fn bytes_are_in_little_endian_order(n: u16, m: u32, s: i16)
    ensures
        le16(n).len() == 2 && le16(n)[0] + 0x100 * le16(n)[1] == n,
        le32(m).len() == 4 && le32(m)[0] + 0x100 * le32(m)[1] + 0x1_0000 * le32(m)[2] + 0x100_0000
            * le32(m)[3] == m,
        unsigned(s) as int == s as int || unsigned(s) as int == s as int + 0x1_0000,
{
}

/// The number in two bytes of a file, the least significant first.
pub open spec fn number16(file: Seq<u8>, at: int) -> int {
    file[at] + 0x100 * file[at + 1]
}

/// The number in four bytes of a file, the least significant first.
pub open spec fn number32(file: Seq<u8>, at: int) -> int {
    file[at] + 0x100 * file[at + 1] + 0x1_0000 * file[at + 2] + 0x100_0000 * file[at + 3]
}

/// Where the twelve parts of a header of 44 bytes are found.
proof fn places_in_a_header(
    riff: Seq<u8>,
    size: Seq<u8>,
    kind: Seq<u8>,
    length: Seq<u8>,
    format: Seq<u8>,
    channels: Seq<u8>,
    rate: Seq<u8>,
    bytes: Seq<u8>,
    block: Seq<u8>,
    bits: Seq<u8>,
    data: Seq<u8>,
    count: Seq<u8>,
    rest: Seq<u8>,
)
    requires
        riff.len() == 4,
        size.len() == 4,
        kind.len() == 8,
        length.len() == 4,
        format.len() == 2,
        channels.len() == 2,
        rate.len() == 4,
        bytes.len() == 4,
        block.len() == 2,
        bits.len() == 2,
        data.len() == 4,
        count.len() == 4,
    ensures
        ({
            let file = (riff + size + kind + length + format + channels + rate + bytes + block + bits + data + count)
                + rest;
            &&& file.len() == 44 + rest.len()
            &&& forall|i: int| 0 <= i < 4 ==> #[trigger] file[i] == riff[i - 0]
            &&& forall|i: int| 4 <= i < 8 ==> #[trigger] file[i] == size[i - 4]
            &&& forall|i: int| 8 <= i < 16 ==> #[trigger] file[i] == kind[i - 8]
            &&& forall|i: int| 16 <= i < 20 ==> #[trigger] file[i] == length[i - 16]
            &&& forall|i: int| 20 <= i < 22 ==> #[trigger] file[i] == format[i - 20]
            &&& forall|i: int| 22 <= i < 24 ==> #[trigger] file[i] == channels[i - 22]
            &&& forall|i: int| 24 <= i < 28 ==> #[trigger] file[i] == rate[i - 24]
            &&& forall|i: int| 28 <= i < 32 ==> #[trigger] file[i] == bytes[i - 28]
            &&& forall|i: int| 32 <= i < 34 ==> #[trigger] file[i] == block[i - 32]
            &&& forall|i: int| 34 <= i < 36 ==> #[trigger] file[i] == bits[i - 34]
            &&& forall|i: int| 36 <= i < 40 ==> #[trigger] file[i] == data[i - 36]
            &&& forall|i: int| 40 <= i < 44 ==> #[trigger] file[i] == count[i - 40]
        }),
{
}

/// A WAV file says what it holds: uncompressed samples of sixteen bits, one
/// channel, so many of them in a second and so many bytes in all; and then come
/// the samples.
pub proof fn a_wav_file_says_what_it_holds(s: Seq<i16>, sample_rate: u32)
    requires
        2 * s.len() + 36 <= u32::MAX,
        2 * sample_rate <= u32::MAX,
    ensures
        ({
            let file = wav_header((2 * s.len()) as u32, sample_rate) + pcm_bytes(s);
            &&& file[0] == 'R' as u8 && file[1] == 'I' as u8 && file[2] == 'F' as u8 && file[3]
                == 'F' as u8
            &&& number32(file, 4) == file.len() - 8
            &&& file[8] == 'W' as u8 && file[9] == 'A' as u8 && file[10] == 'V' as u8 && file[11]
                == 'E' as u8
            &&& file[12] == 'f' as u8 && file[13] == 'm' as u8 && file[14] == 't' as u8 && file[15]
                == ' ' as u8
            &&& number32(file, 16) == 16
            &&& number16(file, 20) == 1
            &&& number16(file, 22) == 1
            &&& number32(file, 24) == sample_rate
            &&& number32(file, 28) == 2 * sample_rate
            &&& number16(file, 32) == 2
            &&& number16(file, 34) == 16
            &&& file[36] == 'd' as u8 && file[37] == 'a' as u8 && file[38] == 't' as u8 && file[39]
                == 'a' as u8
            &&& number32(file, 40) == 2 * s.len()
            &&& samples(file.skip(44)) == s
        }),
{
    wav_length(s, sample_rate);
    let n = (2 * s.len()) as u32;
    let header = wav_header(n, sample_rate);
    let file = header + pcm_bytes(s);
    assert(file.skip(44) =~= pcm_bytes(s));
    decoding_undoes_encoding(s);
    bytes_are_in_little_endian_order(1, (36 + n) as u32, 0);
    bytes_are_in_little_endian_order(2, 16, 0);
    bytes_are_in_little_endian_order(16, sample_rate, 0);
    bytes_are_in_little_endian_order(1, (sample_rate * 2) as u32, 0);
    bytes_are_in_little_endian_order(1, n, 0);
    places_in_a_header(
        seq![0x52u8, 0x49, 0x46, 0x46],
        le32((36 + n) as u32),
        seq![0x57u8, 0x41, 0x56, 0x45, 0x66, 0x6D, 0x74, 0x20],
        le32(16),
        le16(1),
        le16(1),
        le32(sample_rate),
        le32((sample_rate * 2) as u32),
        le16(2),
        le16(16),
        seq![0x64u8, 0x61, 0x74, 0x61],
        le32(n),
        pcm_bytes(s),
    );
}

/// An answer of the service is what was heard only where it is a success; else
/// it is told what went wrong.
pub proof fn only_a_success_is_heard(status: u16, body: Seq<char>)
    ensures
        response_result(status, body) is Ok ==> 200 <= status <= 299 && json_parse(body) is Ok,
        200 <= status <= 299 ==> match json_parse(body) {
            Ok(response) => response_result(status, body) == Ok::<Seq<char>, GroqErrorView>(
                transcription_text(response),
            ),
            Err(_) => response_result(status, body) matches Err(
                GroqErrorView::UnexpectedResponse(_),
            ),
        },
        status == 429 ==> response_result(status, body) == Err::<Seq<char>, GroqErrorView>(
            GroqErrorView::RateLimited,
        ),
        status != 429 && !(200 <= status <= 299) ==> response_result(status, body) == Err::<
            Seq<char>,
            GroqErrorView,
        >(GroqErrorView::Http { status, body }),
{
}

} // verus!
