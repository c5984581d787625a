//! Speech synthesis over plain HTTP: what is asked of the service, and how its
//! answers are read.
use vstd::prelude::*;
use vstd::string::*;

use crate::http_status::is_success;
use crate::json::opt_view;
use crate::text::{
    decimal, decimal_text, is_whitespace, millis_setting, setting_or, trim, trimmed,
    trimmed_to_nothing,
};

verus! {

pub const SPEAK_URL: &'static str = "https://api.deepgram.com/v1/speak";

pub const VOICE_MODEL: &'static str = "aura-asteria-en";

/// Samples per second of the audio that is asked for.
pub const SAMPLE_RATE: u32 = 24_000;

/// How long a request may take, in milliseconds, where nothing else is set.
pub const DEFAULT_TIMEOUT_MS: u64 = 15_000;

/// Why a text could not be spoken.
#[derive(Debug)]
pub enum DeepgramError {
    MissingKey,
    Network(String),
    Timeout,
    RateLimited,
    Http { status: u16, body: String },
}

/// The view of an error.
pub enum DeepgramErrorView {
    MissingKey,
    Network(Seq<char>),
    Timeout,
    RateLimited,
    Http { status: u16, body: Seq<char> },
}

impl DeepgramErrorView {
    /// The words for the error.
    pub open spec fn message(self) -> Seq<char> {
        match self {
            DeepgramErrorView::MissingKey => {
                "no Deepgram API key configured (Settings -> API Keys)"@
            },
            DeepgramErrorView::Network(e) => "network error reaching Deepgram: "@ + e,
            DeepgramErrorView::Timeout => "Deepgram request timed out"@,
            DeepgramErrorView::RateLimited => "Deepgram rate limit hit (429)"@,
            DeepgramErrorView::Http { status, body } => "Deepgram returned "@ + decimal(
                status as nat,
            ) + ": "@ + body,
        }
    }
}

impl DeepgramError {
    pub open spec fn view(&self) -> DeepgramErrorView {
        match *self {
            DeepgramError::MissingKey => DeepgramErrorView::MissingKey,
            DeepgramError::Network(e) => DeepgramErrorView::Network(e@),
            DeepgramError::Timeout => DeepgramErrorView::Timeout,
            DeepgramError::RateLimited => DeepgramErrorView::RateLimited,
            DeepgramError::Http { status, body } => DeepgramErrorView::Http {
                status,
                body: body@,
            },
        }
    }

    /// The words for the error.
    pub fn message(&self) -> (r: String)
        ensures
            r@ == self@.message(),
    {
        match self {
            DeepgramError::MissingKey => {
                "no Deepgram API key configured (Settings -> API Keys)".to_owned()
            },
            DeepgramError::Network(e) => {
                let mut m: String = "network error reaching Deepgram: ".to_owned();
                m.append(e.as_str());
                m
            },
            DeepgramError::Timeout => "Deepgram request timed out".to_owned(),
            DeepgramError::RateLimited => "Deepgram rate limit hit (429)".to_owned(),
            DeepgramError::Http { status, body } => {
                let mut m: String = "Deepgram returned ".to_owned();
                let code: String = decimal_text(*status as u64);
                m.append(code.as_str());
                m.append(": ");
                m.append(body.as_str());
                m
            },
        }
    }
}

/// A key that can be used: one that is stored and not blank.
pub open spec fn usable_key(stored: Option<Seq<char>>) -> Option<Seq<char>> {
    match stored {
        Some(k) if trim(k).len() > 0 => Some(k),
        _ => None,
    }
}

/// The key to use, given what is stored.
pub fn api_key(stored: Option<String>) -> (r: Result<String, DeepgramError>)
    ensures
        match usable_key(opt_view(stored)) {
            Some(k) => r matches Ok(key) && key@ == k,
            None => r matches Err(e) && e is MissingKey,
        },
{
    match stored {
        Some(key) => {
            let t: String = trimmed(key.as_str());
            if t.as_str().is_empty() {
                Err(DeepgramError::MissingKey)
            } else {
                Ok(key)
            }
        },
        None => Err(DeepgramError::MissingKey),
    }
}

/// How long a request may take, in milliseconds.
pub fn request_timeout(setting: &Option<String>) -> (r: u64)
    ensures
        r == setting_or(opt_view(*setting), DEFAULT_TIMEOUT_MS),
{
    millis_setting(setting, DEFAULT_TIMEOUT_MS)
}

/// The address that audio is asked of.
pub open spec fn speak_url_text() -> Seq<char> {
    SPEAK_URL@ + "?model="@ + VOICE_MODEL@ + "&encoding=linear16&container=none&sample_rate="@
        + decimal(SAMPLE_RATE as nat)
}

/// The address that audio is asked of.
pub fn speak_url() -> (r: String)
    ensures
        r@ == speak_url_text(),
{
    let mut url: String = SPEAK_URL.to_owned();
    url.append("?model=");
    url.append(VOICE_MODEL);
    url.append("&encoding=linear16&container=none&sample_rate=");
    let rate: String = decimal_text(SAMPLE_RATE as u64);
    url.append(rate.as_str());
    url
}

/// The key to send a text with, or nothing where there is nothing to speak.
/// A blank text asks for no key.
pub fn plan_speech(text: &str, stored_key: Option<String>) -> (r: Result<
    Option<String>,
    DeepgramError,
>)
    ensures
        if trim(text@).len() == 0 {
            r matches Ok(None)
        } else {
            match usable_key(opt_view(stored_key)) {
                Some(k) => r matches Ok(Some(key)) && key@ == k,
                None => r matches Err(e) && e is MissingKey,
            }
        },
{
    let t: String = trimmed(text);
    if t.as_str().is_empty() {
        return Ok(None);
    }
    match api_key(stored_key) {
        Ok(key) => Ok(Some(key)),
        Err(e) => Err(e),
    }
}

/// Reads the status of the service's answer; `body` is what it sent with it.
pub fn check_status(status: u16, body: String) -> (r: Result<(), DeepgramError>)
    ensures
        if status == 429 {
            r matches Err(e) && e is RateLimited
        } else if is_success(status) {
            r is Ok
        } else {
            r matches Err(e) && e@ == (DeepgramErrorView::Http { status, body: body@ })
        },
{
    if status == 429 {
        Err(DeepgramError::RateLimited)
    } else if 200 <= status && status < 300 {
        Ok(())
    } else {
        Err(DeepgramError::Http { status, body })
    }
}

/// A key is used as it is where it has anything but whitespace, else there is
/// none.
pub proof fn a_blank_key_is_none(key: Seq<char>)
    ensures
        usable_key(None) is None,
        (exists|i: int| 0 <= i < key.len() && !is_whitespace(#[trigger] key[i])) ==> usable_key(
            Some(key),
        ) == Some(key),
        (forall|i: int| 0 <= i < key.len() ==> is_whitespace(#[trigger] key[i])) ==> usable_key(
            Some(key),
        ) is None,
{
    trimmed_to_nothing(key);
}

} // verus!
