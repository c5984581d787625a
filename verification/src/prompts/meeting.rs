//! Questions during a meeting, and the summary after it.
use vstd::prelude::*;
use vstd::string::*;

use crate::backend::{
    exchange_views, passage_texts, MeetingAskRequest, MeetingSummary, MeetingSummaryRequest,
    MeetingSummaryView, MeetingTurnIn,
};
use crate::json::{opt_view, Json, JsonView};
use crate::prompts::ask::headed;
use crate::prompts::chat::{
    chat_views, history_is_replayed_in_order, push_history, push_message, replayed,
    replayed_length, system_message, user_message, ChatMessage, ChatView,
};
use crate::prompts::notes::{listed_texts_are_read, lists_texts, object_in, read_object};
use crate::prompts::veronica::passages;
use crate::text::{
    copy_strings, join, joined, part_stands_in_joined, same, standing_in_passes_on, stands_in,
    the_middle_stands_in, views,
};

verus! {

pub const ASK_SYSTEM_PROMPT: &'static str = "You are a real-time meeting assistant. You are NOT a participant speaking in the meeting — you are a quiet aide the user consults silently while the meeting is happening live.

HOW TO ANSWER

The user is asking you for help with something that just came up in the meeting — a quick recap of a point, a clarifying answer, a fact from the reference material, or a suggestion for what to say or ask next. Give them something they can use or say immediately, not a lecture.

- Speak TO the user, giving them the information or wording they can use right now.
- Ground answers in whatever meeting title/participants context is given, and in the agenda/reference documents when relevant — but never mention \"the documents\" or \"retrieved context\" to the user; just use the information naturally, as if you already knew it.
- If the user asks a factual question and the background context has the answer, give the answer directly and concisely — no hedging, no \"based on the provided information\".
- If background is thin or absent, give solid general guidance for the situation instead of stalling or asking for more information — the user is in a live meeting and needs something usable immediately.
- Keep it SHORT. This is being read in real time during a live meeting: 1-4 sentences, or a short bulleted list of 2-3 points when the question calls for options. Never write an essay.
- No preamble (\"Great question!\"), no meta-commentary about being an AI assistant. Go straight to the answer.
- Plain, natural language. Markdown bullets are fine for multiple points; otherwise plain sentences.
";

pub const SUMMARY_SYSTEM_PROMPT: &'static str = "You are an expert meeting notes analyst. Summarize a completed meeting from its transcript and the items the user tracked live during the meeting (key points, decisions, action items).

Be concrete and grounded only in what's in the transcript/tracked items — do not invent decisions, owners, or deadlines that weren't mentioned.

You must respond with valid JSON only, matching exactly the schema described in the user message. Do not include any text outside the JSON object.";

/// The style that the user chose.
pub open spec fn style_instruction_text(choice: Seq<char>) -> Seq<char> {
    if choice == "technical"@ {
        "Lean into concrete technical/factual detail where it strengthens the point."@
    } else if choice == "concise"@ {
        "Be maximally direct — the shortest usable answer, no filler."@
    } else {
        "Sound like a calm, well-prepared colleague."@
    }
}

/// The style that the user chose.
pub fn style_instruction(choice: &str) -> (r: &'static str)
    ensures
        r@ == style_instruction_text(choice@),
{
    if same(choice, "technical") {
        "Lean into concrete technical/factual detail where it strengthens the point."
    } else if same(choice, "concise") {
        "Be maximally direct — the shortest usable answer, no filler."
    } else {
        "Sound like a calm, well-prepared colleague."
    }
}

/// The ceiling that the user set.
pub open spec fn length_instruction_text(choice: Seq<char>) -> Seq<char> {
    if choice == "brief"@ {
        "Ceiling: 1-2 sentences or a 2-item bullet list."@
    } else if choice == "detailed"@ {
        "Ceiling: roughly 120 words — only use the extra room if the question genuinely needs it."@
    } else {
        "Ceiling: roughly 40-90 words."@
    }
}

/// The ceiling that the user set.
pub fn length_instruction(choice: &str) -> (r: &'static str)
    ensures
        r@ == length_instruction_text(choice@),
{
    if same(choice, "brief") {
        "Ceiling: 1-2 sentences or a 2-item bullet list."
    } else if same(choice, "detailed") {
        "Ceiling: roughly 120 words — only use the extra room if the question genuinely needs it."
    } else {
        "Ceiling: roughly 40-90 words."
    }
}

/// How much like a person the user wants it.
pub open spec fn humanization_instruction_text(choice: Seq<char>) -> Seq<char> {
    if choice == "conversational"@ {
        "Lean more conversational: contractions are fine, a touch of personality is fine, as if quietly messaging a colleague rather than reciting a rehearsed answer."@
    } else if choice == "formal"@ {
        "Lean a bit more formal and measured, while still sounding human, not robotic."@
    } else {
        "Sound like a real colleague talking, not a generated answer."@
    }
}

/// How much like a person the user wants it.
pub fn humanization_instruction(choice: &str) -> (r: &'static str)
    ensures
        r@ == humanization_instruction_text(choice@),
{
    if same(choice, "conversational") {
        "Lean more conversational: contractions are fine, a touch of personality is fine, as if quietly messaging a colleague rather than reciting a rehearsed answer."
    } else if same(choice, "formal") {
        "Lean a bit more formal and measured, while still sounding human, not robotic."
    } else {
        "Sound like a real colleague talking, not a generated answer."
    }
}

/// What is known of the meeting: its title, who takes part, and documents.
pub open spec fn background_blocks(request: MeetingAskRequest) -> Seq<Seq<char>> {
    headed("Meeting: "@, opt_view(request.meeting_title)) + headed(
        "Participants: "@,
        opt_view(request.participants),
    ) + (if request.retrieved_context@.len() > 0 {
        seq![
            "Agenda/reference background:\n"@ + joined(
                passage_texts(request.retrieved_context@),
                "\n\n"@,
            ),
        ]
    } else {
        Seq::empty()
    })
}

fn push_headed(blocks: &mut Vec<String>, heading: &str, content: &Option<String>)
    ensures
        views(final(blocks)@) == views(old(blocks)@) + headed(heading@, opt_view(*content)),
{
    match content {
        Some(c) => {
            let mut block: String = heading.to_owned();
            block.append(c.as_str());
            blocks.push(block);
        },
        None => {},
    }
    proof {
        assert(views(blocks@) =~= views(old(blocks)@) + headed(heading@, opt_view(*content)));
    }
}

/// What is known of the meeting, block by block.
pub fn context_blocks(request: &MeetingAskRequest) -> (r: Vec<String>)
    ensures
        views(r@) == background_blocks(*request),
{
    let mut blocks: Vec<String> = Vec::new();
    push_headed(&mut blocks, "Meeting: ", &request.meeting_title);
    push_headed(&mut blocks, "Participants: ", &request.participants);
    if request.retrieved_context.len() > 0 {
        let mut block: String = "Agenda/reference background:\n".to_owned();
        let texts: Vec<String> = passages(&request.retrieved_context);
        let all: String = join(&texts, "\n\n");
        block.append(all.as_str());
        blocks.push(block);
    }
    proof {
        assert(views(blocks@) =~= background_blocks(*request));
    }
    blocks
}

/// The parts of the message with the question.
pub open spec fn ask_parts(request: MeetingAskRequest) -> Seq<Seq<char>> {
    let blocks = background_blocks(request);
    (if blocks.len() > 0 {
        seq!["CONTEXT:\n"@ + joined(blocks, "\n\n"@)]
    } else {
        Seq::empty()
    }) + seq![
        "The user asks:\n"@ + request.question@,
        length_instruction_text(request.answer_length@) + " "@
            + style_instruction_text(request.response_style@) + "\n"@
            + humanization_instruction_text(request.humanization@)
            + "\nReply with only the answer — no headers, no restating the question."@,
    ]
}

/// The messages for a question: the scene, the conversation so far, and the
/// question.
pub open spec fn ask_messages(request: MeetingAskRequest) -> Seq<ChatView> {
    (seq![system_message(ASK_SYSTEM_PROMPT@)] + replayed(
        exchange_views(request.conversation_history@),
    )).push(user_message(joined(ask_parts(request), "\n\n---\n\n"@)))
}

/// The messages for a question.
pub fn build_ask_messages(request: &MeetingAskRequest) -> (r: Vec<ChatMessage>)
    ensures
        chat_views(r@) == ask_messages(*request),
{
    let mut messages: Vec<ChatMessage> = Vec::new();
    push_message(&mut messages, ChatMessage::system(ASK_SYSTEM_PROMPT.to_owned()));
    proof {
        assert(chat_views(messages@) =~= seq![system_message(ASK_SYSTEM_PROMPT@)]);
    }
    push_history(&mut messages, &request.conversation_history);
    let mut parts: Vec<String> = Vec::new();
    let blocks: Vec<String> = context_blocks(request);
    if blocks.len() > 0 {
        let mut part: String = "CONTEXT:\n".to_owned();
        let all: String = join(&blocks, "\n\n");
        part.append(all.as_str());
        parts.push(part);
    }
    let mut ask: String = "The user asks:\n".to_owned();
    ask.append(request.question.as_str());
    parts.push(ask);
    let mut tail: String = length_instruction(request.answer_length.as_str()).to_owned();
    tail.append(" ");
    tail.append(style_instruction(request.response_style.as_str()));
    tail.append("\n");
    tail.append(humanization_instruction(request.humanization.as_str()));
    tail.append("\nReply with only the answer — no headers, no restating the question.");
    parts.push(tail);
    proof {
        assert(views(parts@) =~= ask_parts(*request));
    }
    push_message(&mut messages, ChatMessage::user(join(&parts, "\n\n---\n\n")));
    messages
}

/// The budget of tokens for an answer.
pub fn max_tokens(request: &MeetingAskRequest) -> (r: u32)
    ensures
        r == (if request.answer_length@ == "brief"@ {
            120u32
        } else if request.answer_length@ == "detailed"@ {
            300u32
        } else {
            180u32
        }),
{
    if same(request.answer_length.as_str(), "brief") {
        120
    } else if same(request.answer_length.as_str(), "detailed") {
        300
    } else {
        180
    }
}

/// Items as a bulleted list.
pub open spec fn bullets(items: Seq<Seq<char>>) -> Seq<char> {
    if items.len() == 0 {
        "(none noted)"@
    } else {
        joined(items.map_values(|i: Seq<char>| "- "@ + i), "\n"@)
    }
}

fn bullet_list(items: &Vec<String>) -> (r: String)
    ensures
        r@ == bullets(views(items@)),
{
    if items.len() == 0 {
        return "(none noted)".to_owned();
    }
    let mut lines: Vec<String> = Vec::new();
    let mut i: usize = 0;
    while i < items.len()
        invariant
            i <= items@.len(),
            lines@.len() == i,
            forall|j: int| 0 <= j < i ==> (#[trigger] lines@[j])@ == "- "@ + items@[j]@,
        decreases items@.len() - i,
    {
        let mut line: String = "- ".to_owned();
        line.append(items[i].as_str());
        lines.push(line);
        i += 1;
    }
    proof {
        assert(views(lines@) =~= views(items@).map_values(|i: Seq<char>| "- "@ + i));
    }
    join(&lines, "\n")
}

/// What was said, a line per turn.
pub open spec fn spoken_lines(turns: Seq<MeetingTurnIn>) -> Seq<Seq<char>> {
    turns.map_values(|t: MeetingTurnIn| t.speaker@ + ": "@ + t.text@)
}

/// A text, or a stand-in where it is empty.
pub open spec fn or_else(text: Seq<char>, stand_in: Seq<char>) -> Seq<char> {
    if text.len() == 0 {
        stand_in
    } else {
        text
    }
}

/// The title of the meeting and who took part, or that neither is known.
pub open spec fn meeting_header(request: MeetingSummaryRequest) -> Seq<char> {
    let parts = headed("MEETING\n"@, opt_view(request.meeting_title)) + headed(
        "PARTICIPANTS\n"@,
        opt_view(request.participants),
    );
    if parts.len() == 0 {
        "(No meeting title/participants provided.)"@
    } else {
        joined(parts, "\n\n"@)
    }
}

/// The message that asks for a summary.
pub open spec fn summary_text(request: MeetingSummaryRequest) -> Seq<char> {
    meeting_header(request) + "\n\nMEETING TRANSCRIPT\n"@ + or_else(
        joined(spoken_lines(request.turns@), "\n"@),
        "(No transcript captured.)"@,
    ) + "\n\nTRACKED ITEMS\n"@ + ("Key points noted during the meeting:\n"@ + bullets(views(request.key_points@))
        + "\n\nDecisions made during the meeting:\n"@ + bullets(views(request.decisions@))
        + "\n\nAction items raised during the meeting:\n"@ + bullets(views(request.action_items@)))
        + "\n\nRespond with a single JSON object matching exactly this schema:\n{\n  \"summary\": \"string — 2-4 sentence overview of the meeting\",\n  \"key_points\": [\"string\", \"...\"],\n  \"decisions\": [\"string\", \"...\"],\n  \"action_items\": [\"string\", \"...\"],\n  \"next_steps\": [\"string\", \"...\"]\n}"@
}

/// The instructions and the message that ask for a summary.
pub fn build_summary_prompt(request: &MeetingSummaryRequest) -> (r: (String, String))
    ensures
        r.0@ == SUMMARY_SYSTEM_PROMPT@,
        r.1@ == summary_text(*request),
{
    let mut header: Vec<String> = Vec::new();
    proof {
        assert(views(header@) =~= Seq::empty());
    }
    push_headed(&mut header, "MEETING\n", &request.meeting_title);
    push_headed(&mut header, "PARTICIPANTS\n", &request.participants);
    proof {
        assert(views(header@) =~= headed("MEETING\n"@, opt_view(request.meeting_title)) + headed(
            "PARTICIPANTS\n"@,
            opt_view(request.participants),
        ));
    }
    let mut text: String = if header.len() == 0 {
        "(No meeting title/participants provided.)".to_owned()
    } else {
        join(&header, "\n\n")
    };
    text.append("\n\nMEETING TRANSCRIPT\n");
    let mut lines: Vec<String> = Vec::new();
    let mut i: usize = 0;
    while i < request.turns.len()
        invariant
            i <= request.turns@.len(),
            lines@.len() == i,
            forall|j: int|
                0 <= j < i ==> (#[trigger] lines@[j])@ == request.turns@[j].speaker@ + ": "@
                    + request.turns@[j].text@,
        decreases request.turns@.len() - i,
    {
        let mut line: String = request.turns[i].speaker.clone();
        line.append(": ");
        line.append(request.turns[i].text.as_str());
        lines.push(line);
        i += 1;
    }
    proof {
        assert(views(lines@) =~= spoken_lines(request.turns@));
    }
    let spoken: String = join(&lines, "\n");
    if spoken.as_str().is_empty() {
        text.append("(No transcript captured.)");
    } else {
        text.append(spoken.as_str());
    }
    text.append("\n\nTRACKED ITEMS\n");
    let mut noted: String = "Key points noted during the meeting:\n".to_owned();
    let points: String = bullet_list(&request.key_points);
    noted.append(points.as_str());
    noted.append("\n\nDecisions made during the meeting:\n");
    let decisions: String = bullet_list(&request.decisions);
    noted.append(decisions.as_str());
    noted.append("\n\nAction items raised during the meeting:\n");
    let actions: String = bullet_list(&request.action_items);
    noted.append(actions.as_str());
    text.append(noted.as_str());
    text.append("\n\nRespond with a single JSON object matching exactly this schema:\n{\n  \"summary\": \"string — 2-4 sentence overview of the meeting\",\n  \"key_points\": [\"string\", \"...\"],\n  \"decisions\": [\"string\", \"...\"],\n  \"action_items\": [\"string\", \"...\"],\n  \"next_steps\": [\"string\", \"...\"]\n}");
    (SUMMARY_SYSTEM_PROMPT.to_owned(), text)
}

/// The summary of a meeting in which nothing was captured.
pub fn empty_turns_summary() -> (r: MeetingSummary)
    ensures
        r@ == (MeetingSummaryView {
            summary: "No conversation was captured for this meeting."@,
            key_points: Seq::empty(),
            decisions: Seq::empty(),
            action_items: Seq::empty(),
            next_steps: Seq::empty(),
            message: "No transcript turns were provided."@,
        }),
{
    let r = MeetingSummary {
        summary: "No conversation was captured for this meeting.".to_owned(),
        key_points: Vec::new(),
        decisions: Vec::new(),
        action_items: Vec::new(),
        next_steps: Vec::new(),
        message: "No transcript turns were provided.".to_owned(),
    };
    proof {
        let empty = Seq::<Seq<char>>::empty();
        assert(r@.key_points =~= empty);
        assert(r@.decisions =~= empty);
        assert(r@.action_items =~= empty);
        assert(r@.next_steps =~= empty);
    }
    r
}

/// The summary that a JSON object holds. What it lacks is empty.
pub open spec fn summary_in(object: JsonView) -> MeetingSummaryView {
    MeetingSummaryView {
        summary: object.text_or_empty("summary"@),
        key_points: object.texts_field("key_points"@),
        decisions: object.texts_field("decisions"@),
        action_items: object.texts_field("action_items"@),
        next_steps: object.texts_field("next_steps"@),
        message: Seq::empty(),
    }
}

/// Reads the summary that a JSON object holds.
pub fn read_summary(object: &Json) -> (r: MeetingSummary)
    ensures
        r@ == summary_in(object@),
{
    MeetingSummary {
        summary: object.text_or_empty("summary"),
        key_points: object.texts_field("key_points"),
        decisions: object.texts_field("decisions"),
        action_items: object.texts_field("action_items"),
        next_steps: object.texts_field("next_steps"),
        message: String::new(),
    }
}

/// Reads the summary in a model's answer.
pub fn parse_summary(raw: &str) -> (r: Result<MeetingSummary, String>)
    ensures
        match object_in(raw@) {
            Ok(object) => r matches Ok(s) && s@ == summary_in(object),
            Err(e) => r matches Err(m) && m@ == e,
        },
{
    match read_object(raw) {
        Ok(object) => Ok(read_summary(&object)),
        Err(e) => Err(e),
    }
}

/// What is shown where no summary could be had: the items that the user
/// tracked.
pub fn tracked_items_fallback(request: &MeetingSummaryRequest, error_message: &str) -> (r:
    MeetingSummary)
    ensures
        r@ == (MeetingSummaryView {
            summary: Seq::empty(),
            key_points: views(request.key_points@),
            decisions: views(request.decisions@),
            action_items: views(request.action_items@),
            next_steps: Seq::empty(),
            message: "AI summary could not be generated ("@ + error_message@
                + "); showing tracked items only."@,
        }),
{
    let mut message: String = "AI summary could not be generated (".to_owned();
    message.append(error_message);
    message.append("); showing tracked items only.");
    let r = MeetingSummary {
        summary: String::new(),
        key_points: copy_strings(&request.key_points),
        decisions: copy_strings(&request.decisions),
        action_items: copy_strings(&request.action_items),
        next_steps: Vec::new(),
        message,
    };
    proof {
        assert(r@.next_steps =~= Seq::empty());
    }
    r
}

/// A question in a meeting is asked with all that is known: the conversation so
/// far stands before it, in order, and with it stand the question, the meeting,
/// who takes part, every passage, and what the user wishes of the answer.
pub proof fn a_question_is_asked_with_all_that_is_known(request: MeetingAskRequest, i: int)
    ensures
        ({
            let sent = ask_messages(request);
            let history = request.conversation_history@;
            let asked = sent.last().content;
            &&& sent.len() == 2 * history.len() + 2
            &&& sent[0].role == "system"@
            &&& 0 <= i < history.len() ==> sent[2 * i + 1].role == "user"@ && sent[2 * i
                + 1].content == history[i].question@
            &&& 0 <= i < history.len() ==> sent[2 * i + 2].role == "assistant"@ && sent[2 * i
                + 2].content == history[i].answer@
            &&& sent.last().role == "user"@
            &&& stands_in(asked, request.question@)
            &&& request.meeting_title matches Some(t) ==> stands_in(asked, t@)
            &&& request.participants matches Some(t) ==> stands_in(asked, t@)
            &&& 0 <= i < request.retrieved_context@.len() ==> stands_in(
                asked,
                request.retrieved_context@[i].text@,
            )
            &&& stands_in(asked, length_instruction_text(request.answer_length@))
            &&& stands_in(asked, style_instruction_text(request.response_style@))
            &&& stands_in(asked, humanization_instruction_text(request.humanization@))
        }),
{
    let history = exchange_views(request.conversation_history@);
    let sent = ask_messages(request);
    let told = replayed(history);
    replayed_length(history);
    if 0 <= i < history.len() {
        history_is_replayed_in_order(history, i);
        assert(sent[2 * i + 1] == told[2 * i]);
        assert(sent[2 * i + 2] == told[2 * i + 1]);
    }
    let parts = ask_parts(request);
    let sep = "\n\n---\n\n"@;
    let asked = joined(parts, sep);
    let blocks = background_blocks(request);
    let at = parts.len() - 2;
    part_stands_in_joined(parts, sep, at);
    part_stands_in_joined(parts, sep, at + 1);
    the_middle_stands_in("The user asks:\n"@, request.question@, Seq::empty());
    assert(parts[at] == "The user asks:\n"@ + request.question@);
    standing_in_passes_on(asked, parts[at], request.question@);
    let wishes = parts[at + 1];
    let length = length_instruction_text(request.answer_length@);
    let style = style_instruction_text(request.response_style@);
    let human = humanization_instruction_text(request.humanization@);
    let end = "\nReply with only the answer — no headers, no restating the question."@;
    the_middle_stands_in(Seq::empty(), length, " "@ + style + "\n"@ + human + end);
    assert(wishes =~= length + (" "@ + style + "\n"@ + human + end));
    standing_in_passes_on(asked, wishes, length);
    the_middle_stands_in(length + " "@, style, "\n"@ + human + end);
    assert(wishes =~= (length + " "@) + style + ("\n"@ + human + end));
    standing_in_passes_on(asked, wishes, style);
    the_middle_stands_in(length + " "@ + style + "\n"@, human, end);
    standing_in_passes_on(asked, wishes, human);
    if blocks.len() > 0 {
        let known = joined(blocks, "\n\n"@);
        part_stands_in_joined(parts, sep, 0);
        assert(parts[0] == "CONTEXT:\n"@ + known);
        the_middle_stands_in("CONTEXT:\n"@, known, Seq::empty());
        standing_in_passes_on(asked, parts[0], known);
        let second = if request.meeting_title is Some {
            1int
        } else {
            0int
        };
        if request.meeting_title is Some {
            let t = request.meeting_title->Some_0@;
            assert(blocks[0] == "Meeting: "@ + t);
            part_stands_in_joined(blocks, "\n\n"@, 0);
            standing_in_passes_on(asked, known, blocks[0]);
            the_middle_stands_in("Meeting: "@, t, Seq::empty());
            standing_in_passes_on(asked, blocks[0], t);
        }
        if request.participants is Some {
            let t = request.participants->Some_0@;
            assert(blocks[second] == "Participants: "@ + t);
            part_stands_in_joined(blocks, "\n\n"@, second);
            standing_in_passes_on(asked, known, blocks[second]);
            the_middle_stands_in("Participants: "@, t, Seq::empty());
            standing_in_passes_on(asked, blocks[second], t);
        }
        if 0 <= i < request.retrieved_context@.len() {
            let texts = passage_texts(request.retrieved_context@);
            let found = joined(texts, "\n\n"@);
            let k = blocks.len() - 1;
            assert(blocks[k] == "Agenda/reference background:\n"@ + found);
            part_stands_in_joined(blocks, "\n\n"@, k);
            standing_in_passes_on(asked, known, blocks[k]);
            the_middle_stands_in("Agenda/reference background:\n"@, found, Seq::empty());
            standing_in_passes_on(asked, blocks[k], found);
            part_stands_in_joined(texts, "\n\n"@, i);
            standing_in_passes_on(asked, found, texts[i]);
        }
    }
}

proof fn a_bullet_stands_in(items: Seq<Seq<char>>, i: int)
    requires
        0 <= i < items.len(),
    ensures
        stands_in(bullets(items), items[i]),
{
    let shown = items.map_values(|x: Seq<char>| "- "@ + x);
    part_stands_in_joined(shown, "\n"@, i);
    the_middle_stands_in("- "@, items[i], Seq::empty());
    assert(shown[i] == "- "@ + items[i]);
    standing_in_passes_on(bullets(items), shown[i], items[i]);
}

/// A meeting is summarised from all of it: every turn with who spoke and what was
/// said, and every key point, decision and action item that was noted, each under
/// its own heading.
pub proof fn a_meeting_is_summarised_whole(request: MeetingSummaryRequest, i: int)
    ensures
        0 <= i < request.turns@.len() ==> stands_in(
            summary_text(request),
            request.turns@[i].speaker@ + ": "@ + request.turns@[i].text@,
        ),
        0 <= i < request.key_points@.len() ==> stands_in(
            bullets(views(request.key_points@)),
            request.key_points@[i]@,
        ),
        0 <= i < request.decisions@.len() ==> stands_in(
            bullets(views(request.decisions@)),
            request.decisions@[i]@,
        ),
        0 <= i < request.action_items@.len() ==> stands_in(
            bullets(views(request.action_items@)),
            request.action_items@[i]@,
        ),
        stands_in(
            summary_text(request),
            "Key points noted during the meeting:\n"@ + bullets(views(request.key_points@)),
        ),
        stands_in(
            summary_text(request),
            "Decisions made during the meeting:\n"@ + bullets(views(request.decisions@)),
        ),
        stands_in(
            summary_text(request),
            "Action items raised during the meeting:\n"@ + bullets(views(request.action_items@)),
        ),
{
    let text = summary_text(request);
    let lines = spoken_lines(request.turns@);
    let said = joined(lines, "\n"@);
    let spoken = or_else(said, "(No transcript captured.)"@);
    let points = "Key points noted during the meeting:\n"@ + bullets(views(request.key_points@));
    let decided = "Decisions made during the meeting:\n"@ + bullets(views(request.decisions@));
    let actions = "Action items raised during the meeting:\n"@ + bullets(
        views(request.action_items@),
    );
    let a = meeting_header(request).len() + "\n\nMEETING TRANSCRIPT\n"@.len();
    let b = a + spoken.len();
    let c = b + "\n\nTRACKED ITEMS\n"@.len();
    let d = c + points.len();
    let e = d + "\n\n"@.len();
    let f = e + decided.len();
    let g = f + "\n\n"@.len();
    let h = g + actions.len();
    reveal_strlit("\n\n");
    reveal_strlit("\n\nDecisions made during the meeting:\n");
    reveal_strlit("Decisions made during the meeting:\n");
    reveal_strlit("\n\nAction items raised during the meeting:\n");
    reveal_strlit("Action items raised during the meeting:\n");
    assert("\n\nDecisions made during the meeting:\n"@ =~= "\n\n"@
        + "Decisions made during the meeting:\n"@);
    assert("\n\nAction items raised during the meeting:\n"@ =~= "\n\n"@
        + "Action items raised during the meeting:\n"@);
    assert(text =~= text.take(a as int) + spoken + text.skip(b as int));
    assert(text =~= text.take(c as int) + points + text.skip(d as int));
    assert(text =~= text.take(e as int) + decided + text.skip(f as int));
    assert(text =~= text.take(g as int) + actions + text.skip(h as int));
    if 0 <= i < request.turns@.len() {
        part_stands_in_joined(lines, "\n"@, i);
        let line = request.turns@[i].speaker@ + ": "@ + request.turns@[i].text@;
        reveal_strlit(": ");
        assert(lines[i] == line);
        let (x, y) = choose|x: Seq<char>, y: Seq<char>| said == #[trigger] (x + line + y);
        assert(said.len() >= line.len());
        assert(line.len() > 0);
        standing_in_passes_on(text, spoken, line);
    }
    if 0 <= i < request.key_points@.len() {
        a_bullet_stands_in(views(request.key_points@), i);
    }
    if 0 <= i < request.decisions@.len() {
        a_bullet_stands_in(views(request.decisions@), i);
    }
    if 0 <= i < request.action_items@.len() {
        a_bullet_stands_in(views(request.action_items@), i);
    }
}

/// Each part of a summary is read from the field of its own name.
pub proof fn each_part_of_a_summary_is_its_own(
    object: JsonView,
    summary: Seq<char>,
    key_points: Seq<Seq<char>>,
    decisions: Seq<Seq<char>>,
    action_items: Seq<Seq<char>>,
    next_steps: Seq<Seq<char>>,
)
    requires
        object.get("summary"@) == Some(JsonView::Text(summary)),
        lists_texts(object, "key_points"@, key_points),
        lists_texts(object, "decisions"@, decisions),
        lists_texts(object, "action_items"@, action_items),
        lists_texts(object, "next_steps"@, next_steps),
    ensures
        summary_in(object).summary == summary,
        summary_in(object).key_points == key_points,
        summary_in(object).decisions == decisions,
        summary_in(object).action_items == action_items,
        summary_in(object).next_steps == next_steps,
        summary_in(object).message.len() == 0,
{
    listed_texts_are_read(object, "key_points"@, key_points);
    listed_texts_are_read(object, "decisions"@, decisions);
    listed_texts_are_read(object, "action_items"@, action_items);
    listed_texts_are_read(object, "next_steps"@, next_steps);
}

} // verus!
