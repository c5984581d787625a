//! Classifying a spoken request into a closed vocabulary.
use vstd::prelude::*;
use vstd::string::*;

use crate::json::{Json, JsonView};
use crate::prompts::notes::{object_in, read_object};
use crate::text::{same, stands_in, trim, trimmed};

verus! {

/// What a request asks for.
#[derive(Debug, Clone, PartialEq, Eq)]
pub enum ParsedIntent {
    OpenApp(String),
    OpenFile(String),
    OpenFolder(String),
    OpenUrl(String),
    QuerySystemInfo(String),
    Unknown,
}

/// The view of what a request asks for.
pub enum IntentView {
    OpenApp(Seq<char>),
    OpenFile(Seq<char>),
    OpenFolder(Seq<char>),
    OpenUrl(Seq<char>),
    QuerySystemInfo(Seq<char>),
    Unknown,
}

impl ParsedIntent {
    pub open spec fn view(&self) -> IntentView {
        match *self {
            ParsedIntent::OpenApp(t) => IntentView::OpenApp(t@),
            ParsedIntent::OpenFile(t) => IntentView::OpenFile(t@),
            ParsedIntent::OpenFolder(t) => IntentView::OpenFolder(t@),
            ParsedIntent::OpenUrl(t) => IntentView::OpenUrl(t@),
            ParsedIntent::QuerySystemInfo(t) => IntentView::QuerySystemInfo(t@),
            ParsedIntent::Unknown => IntentView::Unknown,
        }
    }
}

pub const SYSTEM_INSTRUCTIONS: &'static str = "You classify a single spoken user request into a fixed action vocabulary for a desktop assistant.

You must respond with valid JSON only, matching exactly the schema described in the user message. Do not include any text outside the JSON object.

Only use the six intent names given to you. Never invent a new intent name. If the request does not clearly match one of them, respond with intent \"UNKNOWN\".

Do not attempt to interpret, plan, or justify system commands, file deletions, formatting, installs, shutdowns, registry or security changes, credential access, or anything destructive — none of those have a valid intent in your vocabulary, so any such request must be classified \"UNKNOWN\".

The \"target\" field is always the plain subject of the request as the user said it (an app name, a file or folder path or name, a URL, or a system-info kind) — never a command, flag, or instruction.";

/// The message that asks for a classification.
pub open spec fn intent_text(utterance: Seq<char>) -> Seq<char> {
    "USER REQUEST\n"@ + utterance
        + "\n\nRespond with a single JSON object matching exactly this schema:\n{\n  \"intent\": \"OPEN_APP\" | \"OPEN_FILE\" | \"OPEN_FOLDER\" | \"OPEN_URL\" | \"QUERY_SYSTEM_INFO\" | \"UNKNOWN\",\n  \"target\": string\n}\n\nOPEN_APP: target is the application's name (e.g. \"Notepad\", \"Visual Studio Code\", \"Spotify\").\nOPEN_FILE: target is the file path or name the user described.\nOPEN_FOLDER: target is the folder path or name the user described.\nOPEN_URL: target is the URL or site name the user described.\nQUERY_SYSTEM_INFO: target is one of \"time\", \"battery\", or \"volume\" — whichever the user is asking about.\nUNKNOWN: target may be an empty string."@
}

/// The instructions and the message that ask for a classification.
pub fn build_intent_prompt(utterance: &str) -> (r: (String, String))
    ensures
        r.0@ == SYSTEM_INSTRUCTIONS@,
        r.1@ == intent_text(utterance@),
{
    let mut text: String = "USER REQUEST\n".to_owned();
    text.append(utterance);
    text.append("\n\nRespond with a single JSON object matching exactly this schema:\n{\n  \"intent\": \"OPEN_APP\" | \"OPEN_FILE\" | \"OPEN_FOLDER\" | \"OPEN_URL\" | \"QUERY_SYSTEM_INFO\" | \"UNKNOWN\",\n  \"target\": string\n}\n\nOPEN_APP: target is the application's name (e.g. \"Notepad\", \"Visual Studio Code\", \"Spotify\").\nOPEN_FILE: target is the file path or name the user described.\nOPEN_FOLDER: target is the folder path or name the user described.\nOPEN_URL: target is the URL or site name the user described.\nQUERY_SYSTEM_INFO: target is one of \"time\", \"battery\", or \"volume\" — whichever the user is asking about.\nUNKNOWN: target may be an empty string.");
    (SYSTEM_INSTRUCTIONS.to_owned(), text)
}

/// What a JSON object asks for: one of the five intents with a target that is
/// not blank, else nothing known.
pub open spec fn intent_in(object: JsonView) -> IntentView {
    let target = trim(object.text_or_empty("target"@));
    let intent = object.str_field("intent"@);
    if target.len() == 0 {
        IntentView::Unknown
    } else if intent == Some("OPEN_APP"@) {
        IntentView::OpenApp(target)
    } else if intent == Some("OPEN_FILE"@) {
        IntentView::OpenFile(target)
    } else if intent == Some("OPEN_FOLDER"@) {
        IntentView::OpenFolder(target)
    } else if intent == Some("OPEN_URL"@) {
        IntentView::OpenUrl(target)
    } else if intent == Some("QUERY_SYSTEM_INFO"@) {
        IntentView::QuerySystemInfo(target)
    } else {
        IntentView::Unknown
    }
}

/// Reads what a JSON object asks for.
pub fn read_intent(object: &Json) -> (r: ParsedIntent)
    ensures
        r@ == intent_in(object@),
{
    let given: String = object.text_or_empty("target");
    let target: String = trimmed(given.as_str());
    if target.as_str().is_empty() {
        return ParsedIntent::Unknown;
    }
    match object.str_field("intent") {
        None => ParsedIntent::Unknown,
        Some(intent) => if same(intent.as_str(), "OPEN_APP") {
            ParsedIntent::OpenApp(target)
        } else if same(intent.as_str(), "OPEN_FILE") {
            ParsedIntent::OpenFile(target)
        } else if same(intent.as_str(), "OPEN_FOLDER") {
            ParsedIntent::OpenFolder(target)
        } else if same(intent.as_str(), "OPEN_URL") {
            ParsedIntent::OpenUrl(target)
        } else if same(intent.as_str(), "QUERY_SYSTEM_INFO") {
            ParsedIntent::QuerySystemInfo(target)
        } else {
            ParsedIntent::Unknown
        },
    }
}

/// What a model's answer asks for; nothing known where it cannot be read.
pub fn parse_intent(raw: &str) -> (r: ParsedIntent)
    ensures
        r@ == (match object_in(raw@) {
            Ok(object) => intent_in(object),
            Err(_) => IntentView::Unknown,
        }),
{
    match read_object(raw) {
        Ok(object) => read_intent(&object),
        Err(_) => ParsedIntent::Unknown,
    }
}

/// Nothing is ever asked for without a target: an intent that is known has a
/// target without whitespace around it that is not empty.
pub proof fn known_intents_have_a_target(object: JsonView)
    ensures
        trim(object.text_or_empty("target"@)).len() == 0 ==> intent_in(object) is Unknown,
        object.str_field("intent"@) is None ==> intent_in(object) is Unknown,
{
}

/// What a request asks for is what it says: each kind of intent by its own name,
/// with the target that is told, without the space around it.
pub proof fn each_intent_goes_by_its_name(object: JsonView, target: Seq<char>)
    requires
        object.get("target"@) == Some(JsonView::Text(target)),
        trim(target).len() > 0,
    ensures
        object.get("intent"@) == Some(JsonView::Text("OPEN_APP"@)) <==> intent_in(object)
            == IntentView::OpenApp(trim(target)),
        object.get("intent"@) == Some(JsonView::Text("OPEN_FILE"@)) <==> intent_in(object)
            == IntentView::OpenFile(trim(target)),
        object.get("intent"@) == Some(JsonView::Text("OPEN_FOLDER"@)) <==> intent_in(object)
            == IntentView::OpenFolder(trim(target)),
        object.get("intent"@) == Some(JsonView::Text("OPEN_URL"@)) <==> intent_in(object)
            == IntentView::OpenUrl(trim(target)),
        object.get("intent"@) == Some(JsonView::Text("QUERY_SYSTEM_INFO"@)) <==> intent_in(object)
            == IntentView::QuerySystemInfo(trim(target)),
{
    intent_names_differ();
}

proof fn intent_names_differ()
    ensures
        "OPEN_APP"@ != "OPEN_FILE"@,
        "OPEN_APP"@ != "OPEN_FOLDER"@,
        "OPEN_APP"@ != "OPEN_URL"@,
        "OPEN_APP"@ != "QUERY_SYSTEM_INFO"@,
        "OPEN_FILE"@ != "OPEN_FOLDER"@,
        "OPEN_FILE"@ != "OPEN_URL"@,
        "OPEN_FILE"@ != "QUERY_SYSTEM_INFO"@,
        "OPEN_FOLDER"@ != "OPEN_URL"@,
        "OPEN_FOLDER"@ != "QUERY_SYSTEM_INFO"@,
        "OPEN_URL"@ != "QUERY_SYSTEM_INFO"@,
{
    reveal_strlit("OPEN_APP");
    reveal_strlit("OPEN_FILE");
    reveal_strlit("OPEN_FOLDER");
    reveal_strlit("OPEN_URL");
    reveal_strlit("QUERY_SYSTEM_INFO");
    assert("OPEN_APP"@.len() == 8);
    assert("OPEN_FILE"@.len() == 9);
    assert("OPEN_FOLDER"@.len() == 11);
    assert("OPEN_URL"@.len() == 8);
    assert("QUERY_SYSTEM_INFO"@.len() == 17);
    assert("OPEN_APP"@[5] != "OPEN_URL"@[5]);
}

/// The user's words stand in what is asked.
pub proof fn the_request_is_asked_about(utterance: Seq<char>)
    ensures
        stands_in(intent_text(utterance), utterance),
{
    let lead = "USER REQUEST\n"@;
    let text = intent_text(utterance);
    let n = lead.len() as int;
    assert(text =~= lead + utterance + text.skip(n + utterance.len()));
}

} // verus!
