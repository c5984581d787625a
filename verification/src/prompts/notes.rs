//! Questions about notes, and summaries of notes.
use vstd::prelude::*;
use vstd::string::*;

use crate::backend::{
    NoteContext, NoteSummary, NoteSummaryView, NotesAskRequest, NotesSummaryRequest,
};
use crate::json::{
    json_parse, opt_view, read_json, texts_are_read_in_order, texts_of, Json, JsonView,
};
use crate::prompts::chat::{
    chat_views, extract_json_object, json_object_in, push_message, system_message, user_message,
    ChatMessage, ChatView,
};
use crate::text::{
    ends_with, join, joined, part_stands_in_joined, standing_in_passes_on, stands_in,
    the_middle_stands_in, views,
};

verus! {

pub const SUMMARY_SYSTEM_PROMPT: &'static str = "You extract structure from a personal/work note. Given the note's title and body, produce a short summary plus any tasks, decisions, and key points it contains.

Only extract what is actually present in the note — do not invent tasks or decisions that aren't there. If the note has no tasks, or no decisions, return an empty list for that field rather than inventing one.

You must respond with valid JSON only, matching exactly the schema described in the user message. Do not include any text outside the JSON object.";

pub const ASK_SYSTEM_PROMPT: &'static str = "You answer questions using the user's own notes as context, when relevant. The notes are supporting material, not a hard boundary: if they contain the answer, use it directly and naturally (never say \"according to your notes\" or similar); if they don't, answer from your own general knowledge instead of saying you don't have enough information.

Keep answers concise and directly useful — a few sentences, or a short list when the question calls for multiple points. No preamble.";

pub const ASK_MAX_TOKENS: u32 = 250;

/// The title of a note, or a stand-in.
pub open spec fn title_or_untitled(title: Option<Seq<char>>) -> Seq<char> {
    match title {
        Some(t) => t,
        None => "(untitled)"@,
    }
}

/// A note as it is shown to the model.
pub open spec fn shown_note(note: NoteContext) -> Seq<char> {
    "["@ + title_or_untitled(opt_view(note.title)) + "]\n"@ + note.body@
}

fn title_text(title: &Option<String>) -> (r: String)
    ensures
        r@ == title_or_untitled(opt_view(*title)),
{
    match title {
        Some(t) => t.clone(),
        None => "(untitled)".to_owned(),
    }
}

fn format_note(note: &NoteContext) -> (r: String)
    ensures
        r@ == shown_note(*note),
{
    let mut out: String = "[".to_owned();
    let title: String = title_text(&note.title);
    out.append(title.as_str());
    out.append("]\n");
    out.append(note.body.as_str());
    out
}

/// The notes as they are shown to the model.
pub open spec fn shown_notes(notes: Seq<NoteContext>) -> Seq<Seq<char>> {
    notes.map_values(|n: NoteContext| shown_note(n))
}

/// The message with the question: the notes, where there are any, and the
/// question.
pub open spec fn ask_text(request: NotesAskRequest) -> Seq<char> {
    let question = "Question:\n"@ + request.question@;
    joined(
        if request.notes@.len() > 0 {
            seq!["NOTES:\n"@ + joined(shown_notes(request.notes@), "\n\n"@), question]
        } else {
            seq![question]
        },
        "\n\n---\n\n"@,
    )
}

/// A scene and one message of the user.
pub open spec fn scene_and_message(scene: Seq<char>, message: Seq<char>) -> Seq<ChatView> {
    seq![system_message(scene), user_message(message)]
}

/// A scene and one message of the user.
pub fn two_messages(scene: &str, message: String) -> (r: Vec<ChatMessage>)
    ensures
        chat_views(r@) == scene_and_message(scene@, message@),
{
    let mut out: Vec<ChatMessage> = Vec::new();
    push_message(&mut out, ChatMessage::system(scene.to_owned()));
    push_message(&mut out, ChatMessage::user(message));
    proof {
        assert(chat_views(out@) =~= scene_and_message(scene@, message@));
    }
    out
}

/// The messages for a question about notes.
pub fn build_ask_messages(request: &NotesAskRequest) -> (r: Vec<ChatMessage>)
    ensures
        chat_views(r@) == scene_and_message(ASK_SYSTEM_PROMPT@, ask_text(*request)),
{
    let mut parts: Vec<String> = Vec::new();
    if request.notes.len() > 0 {
        let mut shown: Vec<String> = Vec::new();
        let mut i: usize = 0;
        while i < request.notes.len()
            invariant
                i <= request.notes@.len(),
                shown@.len() == i,
                forall|j: int|
                    0 <= j < i ==> (#[trigger] shown@[j])@ == shown_note(request.notes@[j]),
            decreases request.notes@.len() - i,
        {
            shown.push(format_note(&request.notes[i]));
            i += 1;
        }
        proof {
            assert(views(shown@) =~= shown_notes(request.notes@));
        }
        let mut block: String = "NOTES:\n".to_owned();
        let all: String = join(&shown, "\n\n");
        block.append(all.as_str());
        parts.push(block);
    }
    let mut question: String = "Question:\n".to_owned();
    question.append(request.question.as_str());
    parts.push(question);
    proof {
        let q = "Question:\n"@ + request.question@;
        assert(views(parts@) =~= (if request.notes@.len() > 0 {
            seq!["NOTES:\n"@ + joined(shown_notes(request.notes@), "\n\n"@), q]
        } else {
            seq![q]
        }));
    }
    two_messages(ASK_SYSTEM_PROMPT, join(&parts, "\n\n---\n\n"))
}

/// The message that asks for a summary.
pub open spec fn summary_text(request: NotesSummaryRequest) -> Seq<char> {
    "TITLE: "@ + title_or_untitled(opt_view(request.title)) + "\n\nBODY\n"@ + request.body@
        + "\n\nRespond with a single JSON object matching exactly this schema:\n{\n  \"summary\": \"string — 1-3 sentence summary\",\n  \"tasks\": [\"string\", \"...\"],\n  \"decisions\": [\"string\", \"...\"],\n  \"key_points\": [\"string\", \"...\"]\n}"@
}

/// The messages that ask for a summary of a note.
pub fn build_summary_messages(request: &NotesSummaryRequest) -> (r: Vec<ChatMessage>)
    ensures
        chat_views(r@) == scene_and_message(SUMMARY_SYSTEM_PROMPT@, summary_text(*request)),
{
    let mut text: String = "TITLE: ".to_owned();
    let title: String = title_text(&request.title);
    text.append(title.as_str());
    text.append("\n\nBODY\n");
    text.append(request.body.as_str());
    text.append("\n\nRespond with a single JSON object matching exactly this schema:\n{\n  \"summary\": \"string — 1-3 sentence summary\",\n  \"tasks\": [\"string\", \"...\"],\n  \"decisions\": [\"string\", \"...\"],\n  \"key_points\": [\"string\", \"...\"]\n}");
    two_messages(SUMMARY_SYSTEM_PROMPT, text)
}

/// The summary that a JSON object holds. What it lacks is empty.
pub open spec fn summary_in(object: JsonView) -> NoteSummaryView {
    NoteSummaryView {
        summary: object.text_or_empty("summary"@),
        tasks: object.texts_field("tasks"@),
        decisions: object.texts_field("decisions"@),
        key_points: object.texts_field("key_points"@),
        message: Seq::empty(),
    }
}

/// Reads the summary that a JSON object holds.
pub fn read_summary(object: &Json) -> (r: NoteSummary)
    ensures
        r@ == summary_in(object@),
{
    NoteSummary {
        summary: object.text_or_empty("summary"),
        tasks: object.texts_field("tasks"),
        decisions: object.texts_field("decisions"),
        key_points: object.texts_field("key_points"),
        message: String::new(),
    }
}

/// The JSON object that a model's answer holds, or what is wrong with it.
pub open spec fn object_in(raw: Seq<char>) -> Result<JsonView, Seq<char>> {
    match json_object_in(raw) {
        Ok(text) => json_parse(text),
        Err(e) => Err(e),
    }
}

/// Reads the JSON object that a model's answer holds.
pub fn read_object(raw: &str) -> (r: Result<Json, String>)
    ensures
        match r {
            Ok(v) => object_in(raw@) == Ok::<JsonView, Seq<char>>(v@),
            Err(e) => object_in(raw@) == Err::<JsonView, Seq<char>>(e@),
        },
{
    match extract_json_object(raw) {
        Ok(text) => read_json(text.as_str()),
        Err(e) => Err(e),
    }
}

/// Reads the summary in a model's answer.
pub fn parse_summary(raw: &str) -> (r: Result<NoteSummary, String>)
    ensures
        match object_in(raw@) {
            Ok(object) => r matches Ok(s) && s@ == summary_in(object),
            Err(e) => r matches Err(m) && m@ == e,
        },
{
    match read_object(raw) {
        Ok(object) => Ok(read_summary(&object)),
        Err(e) => Err(e),
    }
}

/// What is shown where no summary could be had.
pub fn summary_failure(error_message: &str) -> (r: NoteSummary)
    ensures
        r@ == (NoteSummaryView {
            summary: Seq::empty(),
            tasks: Seq::empty(),
            decisions: Seq::empty(),
            key_points: Seq::empty(),
            message: "AI summary could not be generated ("@ + error_message@ + ")."@,
        }),
{
    let mut message: String = "AI summary could not be generated (".to_owned();
    message.append(error_message);
    message.append(").");
    let r = NoteSummary {
        summary: String::new(),
        tasks: Vec::new(),
        decisions: Vec::new(),
        key_points: Vec::new(),
        message,
    };
    proof {
        let empty = Seq::<Seq<char>>::empty();
        assert(r@.tasks =~= empty);
        assert(r@.decisions =~= empty);
        assert(r@.key_points =~= empty);
    }
    r
}

/// A question about notes is asked with every note, its title and its text, in
/// the user's own words.
pub proof fn a_question_is_asked_with_every_note(request: NotesAskRequest, i: int)
    ensures
        ends_with(ask_text(request), request.question@),
        0 <= i < request.notes@.len() ==> stands_in(ask_text(request), request.notes@[i].body@),
        0 <= i < request.notes@.len() ==> (request.notes@[i].title matches Some(t) ==> stands_in(
            ask_text(request),
            t@,
        )),
{
    let question = "Question:\n"@ + request.question@;
    let sep = "\n\n---\n\n"@;
    let text = ask_text(request);
    let notes = shown_notes(request.notes@);
    let shown = joined(notes, "\n\n"@);
    let n = request.question@.len() as int;
    if request.notes@.len() > 0 {
        let first = "NOTES:\n"@ + shown;
        let parts = seq![first, question];
        assert(parts.drop_last() =~= seq![first]);
        assert(joined(parts.drop_last(), sep) == first);
        assert(text == first + sep + question);
        part_stands_in_joined(parts, sep, 0);
        the_middle_stands_in("NOTES:\n"@, shown, Seq::empty());
        standing_in_passes_on(text, first, shown);
    } else {
        assert(text == question);
    }
    assert(text.subrange(text.len() - n, text.len() as int) =~= request.question@);
    if 0 <= i < request.notes@.len() {
        let note = request.notes@[i];
        let one = shown_note(note);
        assert(notes[i] == one);
        part_stands_in_joined(notes, "\n\n"@, i);
        standing_in_passes_on(text, shown, one);
        let title = title_or_untitled(opt_view(note.title));
        the_middle_stands_in("["@ + title + "]\n"@, note.body@, Seq::empty());
        standing_in_passes_on(text, one, note.body@);
        the_middle_stands_in("["@, title, "]\n"@ + note.body@);
        assert(one =~= "["@ + title + ("]\n"@ + note.body@));
        standing_in_passes_on(text, one, title);
    }
}

/// A note is summarised from its title and its whole text.
pub proof fn a_note_is_summarised_whole(request: NotesSummaryRequest)
    ensures
        stands_in(summary_text(request), request.body@),
        request.title matches Some(t) ==> stands_in(summary_text(request), t@),
{
    let text = summary_text(request);
    let title = title_or_untitled(opt_view(request.title));
    let a = "TITLE: "@.len() as int;
    let b = a + title.len();
    let c = b + "\n\nBODY\n"@.len();
    let d = c + request.body@.len();
    assert(text =~= text.take(a) + title + text.skip(b));
    assert(text =~= text.take(c) + request.body@ + text.skip(d));
}

/// A field of an object lists these texts, in order.
pub open spec fn lists_texts(object: JsonView, key: Seq<char>, texts: Seq<Seq<char>>) -> bool {
    match object.get(key) {
        Some(JsonView::Array(items)) => {
            &&& items.len() == texts.len()
            &&& forall|i: int|
                0 <= i < texts.len() ==> #[trigger] items[i] == JsonView::Text(texts[i])
        },
        _ => texts.len() == 0,
    }
}

/// The texts that a field lists are read as they stand.
pub proof fn listed_texts_are_read(object: JsonView, key: Seq<char>, texts: Seq<Seq<char>>)
    requires
        lists_texts(object, key, texts),
    ensures
        object.texts_field(key) == texts,
{
    match object.get(key) {
        Some(JsonView::Array(items)) => {
            texts_are_read_in_order(items, Seq::empty(), Seq::empty());
            assert forall|i: int| 0 <= i < items.len() implies (#[trigger] items[i]) is Text by {
                assert(items[i] == JsonView::Text(texts[i]));
            }
            assert forall|i: int| 0 <= i < texts.len() implies texts_of(items)[i]
                == #[trigger] texts[i] by {
                assert(items[i] == JsonView::Text(texts_of(items)[i]));
                assert(items[i] == JsonView::Text(texts[i]));
            }
            assert(texts_of(items) =~= texts);
        },
        _ => {
            assert(texts =~= Seq::<Seq<char>>::empty());
        },
    }
}

/// Each part of a summary is read from the field of its own name.
pub proof fn each_part_of_a_summary_is_its_own(
    object: JsonView,
    summary: Seq<char>,
    tasks: Seq<Seq<char>>,
    decisions: Seq<Seq<char>>,
    key_points: Seq<Seq<char>>,
)
    requires
        object.get("summary"@) == Some(JsonView::Text(summary)),
        lists_texts(object, "tasks"@, tasks),
        lists_texts(object, "decisions"@, decisions),
        lists_texts(object, "key_points"@, key_points),
    ensures
        summary_in(object).summary == summary,
        summary_in(object).tasks == tasks,
        summary_in(object).decisions == decisions,
        summary_in(object).key_points == key_points,
        summary_in(object).message.len() == 0,
{
    listed_texts_are_read(object, "tasks"@, tasks);
    listed_texts_are_read(object, "decisions"@, decisions);
    listed_texts_are_read(object, "key_points"@, key_points);
}

/// The instructions come first and the message second, each as it is.
pub proof fn instructions_and_message(scene: Seq<char>, message: Seq<char>)
    ensures
        scene_and_message(scene, message).len() == 2,
        scene_and_message(scene, message)[0].role == "system"@,
        scene_and_message(scene, message)[0].content == scene,
        scene_and_message(scene, message)[1].role == "user"@,
        scene_and_message(scene, message)[1].content == message,
{
}

} // verus!
