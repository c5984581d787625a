//! The live assistant's prompt: who it is, how long and in what form it is to
//! answer, and the user's own background.
use vstd::prelude::*;
use vstd::string::*;

use crate::agent::tool_list::str_views;
use crate::backend::{exchange_views, passage_texts, AskRequest, AskRetrievedChunk};
use crate::json::opt_view;
use crate::prompts::chat::{
    chat_views, history_is_replayed_in_order, push_history, push_message, replayed,
    replayed_length, system_message, user_message, ChatMessage, ChatView,
};
use crate::prompts::markers::{any_in, any_opens, contains_any, opens_with_any};
use crate::prompts::persona::{
    introduction_text, rules_text, template, template_text, the_introduction_is_brace_free,
    the_rules_are_brace_free, PLACEHOLDER,
};
use crate::text::{
    contains, join, joined, lowercase, occurs_at, part_stands_in_joined, replace_all, replaced,
    replacing_by_itself_changes_nothing, replacing_passes_over, replacing_takes_out, same,
    standing_in_passes_on, stands_in, starts_with, the_middle_stands_in, to_chars, to_lowercase,
    views,
};

verus! {

/// What is said where the wording of a question decides nothing.
pub const DEFAULT_JUDGE_TEXT: &'static str = "This is an ordinary conversational question — answer it in 1-4 plain, natural sentences per LENGTH AND DEPTH above, unless the user's own wording explicitly asked for a detailed/step-by-step breakdown.";

/// The system prompt for an assistant of the given name.
pub open spec fn system_prompt_text(name: Seq<char>) -> Seq<char> {
    replaced(template_text(), PLACEHOLDER@, name)
}

/// The system prompt for an assistant of the given name.
pub fn system_prompt(name: &str) -> (r: String)
    ensures
        r@ == system_prompt_text(name@),
{
    proof {
        reveal_strlit("{name}");
    }
    let text: String = template();
    replace_all(text.as_str(), PLACEHOLDER, name)
}

/// The name stands in the prompt where the placeholder stood, in both places,
/// and nothing else is changed.
pub proof fn the_name_stands_in_both_places(name: Seq<char>)
    ensures
        system_prompt_text(name) == "You are "@ + name + introduction_text() + name + rules_text(),
        system_prompt_text(PLACEHOLDER@) == template_text(),
        system_prompt_text(name) == replaced(
            system_prompt_text(PLACEHOLDER@),
            PLACEHOLDER@,
            name,
        ),
        starts_with(system_prompt_text(name), "You are "@ + name + " — "@),
        contains(
            system_prompt_text(name),
            "You are "@ + name + ". You support only English."@,
        ),
{
    reveal_strlit("{name}");
    reveal_strlit("You are ");
    the_introduction_is_brace_free();
    the_rules_are_brace_free();
    let p = PLACEHOLDER@;
    let intro = introduction_text();
    let end = rules_text();
    let none = Seq::<char>::empty();
    assert(end + none =~= end);
    assert(replaced(none, p, name) == none);
    replacing_passes_over(end, none, p, name);
    replacing_takes_out(end, p, name);
    replacing_passes_over(intro, p + end, p, name);
    replacing_takes_out(intro + (p + end), p, name);
    replacing_passes_over("You are "@, p + (intro + (p + end)), p, name);
    assert(template_text() =~= "You are "@ + (p + (intro + (p + end))));
    let prompt = "You are "@ + name + intro + name + end;
    assert(prompt =~= "You are "@ + (name + (intro + (name + end))));
    assert(system_prompt_text(name) == prompt);
    replacing_by_itself_changes_nothing(template_text(), p);
    let opening = "You are "@ + name + " — "@;
    assert(intro.subrange(0, " — "@.len() as int) == " — "@);
    assert(prompt.subrange(0, opening.len() as int) =~= "You are "@ + name + intro.subrange(
        0,
        " — "@.len() as int,
    ));
    let rule = ". You support only English."@;
    let line = "You are "@ + name + rule;
    let at = ("You are "@ + name + intro).len() - "You are "@.len();
    assert(end.subrange(0, rule.len() as int) == rule);
    assert(intro.subrange(intro.len() - "You are "@.len(), intro.len() as int) == "You are "@);
    assert(prompt.subrange(at, at + line.len()) =~= intro.subrange(
        intro.len() - "You are "@.len(),
        intro.len() as int,
    ) + name + end.subrange(0, rule.len() as int));
    assert(occurs_at(prompt, line, at));
}

/// The prompt for a name without the placeholder holds no placeholder.
pub proof fn no_placeholder_is_left(name: Seq<char>)
    requires
        !contains(name, PLACEHOLDER@),
    ensures
        !contains(system_prompt_text(name), PLACEHOLDER@),
{
    reveal_strlit("{name}");
    reveal_strlit("You are ");
    reveal_strlit(" — ");
    reveal_strlit(". You support only English.");
    the_name_stands_in_both_places(name);
    the_introduction_is_brace_free();
    the_rules_are_brace_free();
    let p = PLACEHOLDER@;
    let intro = introduction_text();
    let end = rules_text();
    let prompt = system_prompt_text(name);
    assert(intro.subrange(0, " — "@.len() as int)[0] == intro[0]);
    assert(end.subrange(0, ". You support only English."@.len() as int)[0] == end[0]);
    let first = "You are "@.len() as int;
    let second = first + name.len() + intro.len();
    assert forall|i: int| !#[trigger] occurs_at(prompt, p, i) by {
        if occurs_at(prompt, p, i) {
            assert forall|k: int| 0 <= k < p.len() implies #[trigger] p[k] == prompt[i + k] by {
                assert(prompt.subrange(i, i + p.len())[k] == prompt[i + k]);
            }
            assert(p[0] == '{');
            let start = if i < second {
                first
            } else {
                second
            };
            assert(start <= i < start + name.len()) by {
                if i < first {
                    assert(prompt[i] == "You are "@[i]);
                } else if first + name.len() <= i < second {
                    assert(prompt[i] == intro[i - first - name.len()]);
                } else if i >= second + name.len() {
                    assert(prompt[i] == end[i - second - name.len()]);
                }
            }
            let j = i - start;
            if j + p.len() <= name.len() {
                assert(name.subrange(j, j + p.len()) =~= p) by {
                    assert forall|k: int| 0 <= k < p.len() implies name[j + k] == #[trigger] p[k] by {
                        assert(prompt[start + (j + k)] == name[j + k]);
                    }
                }
                assert(occurs_at(name, p, j));
            } else {
                let k = name.len() - j;
                assert(0 < k < p.len());
                assert(p[k] == prompt[start + name.len()]);
                assert(prompt[start + name.len()] == (if start == first {
                    intro[0]
                } else {
                    end[0]
                }));
            }
        }
    }
}

/// The ceiling that the user set.
pub open spec fn length_instruction_text(choice: Seq<char>) -> Seq<char> {
    if choice == "brief"@ {
        "Ceiling: 1-3 sentences. A short question should still land in 1 sentence."@
    } else if choice == "detailed"@ {
        "Ceiling: up to roughly 200 words for a question that genuinely warrants real depth (e.g. \"explain step by step\"). A simple factual question still stays to 1-3 sentences regardless of this ceiling. Stay conversational and never write an essay."@
    } else {
        "Ceiling: roughly 50-120 words — this is a maximum, not a quota. Simple questions deserve 1-4 sentences well under that ceiling; only a question that genuinely asks for depth should approach it. Never write an essay."@
    }
}

/// The ceiling that the user set.
pub fn length_instruction(choice: &str) -> (r: &'static str)
    ensures
        r@ == length_instruction_text(choice@),
{
    if same(choice, "brief") {
        "Ceiling: 1-3 sentences. A short question should still land in 1 sentence."
    } else if same(choice, "detailed") {
        "Ceiling: up to roughly 200 words for a question that genuinely warrants real depth (e.g. \"explain step by step\"). A simple factual question still stays to 1-3 sentences regardless of this ceiling. Stay conversational and never write an essay."
    } else {
        "Ceiling: roughly 50-120 words — this is a maximum, not a quota. Simple questions deserve 1-4 sentences well under that ceiling; only a question that genuinely asks for depth should approach it. Never write an essay."
    }
}

/// The style that the user chose.
pub open spec fn style_instruction_text(choice: Seq<char>) -> Seq<char> {
    if choice == "technical"@ {
        "Lean technical: use correct terminology precisely and include a concrete mechanism or example, while still speaking out loud rather than lecturing."@
    } else if choice == "concise"@ {
        "Be maximally direct. Shortest answer that is genuinely complete. No filler."@
    } else {
        "Speak naturally and confidently."@
    }
}

/// The style that the user chose.
pub fn style_instruction(choice: &str) -> (r: &'static str)
    ensures
        r@ == style_instruction_text(choice@),
{
    if same(choice, "technical") {
        "Lean technical: use correct terminology precisely and include a concrete mechanism or example, while still speaking out loud rather than lecturing."
    } else if same(choice, "concise") {
        "Be maximally direct. Shortest answer that is genuinely complete. No filler."
    } else {
        "Speak naturally and confidently."
    }
}

/// How much like a person the user wants it.
pub open spec fn humanization_instruction_text(choice: Seq<char>) -> Seq<char> {
    if choice == "conversational"@ {
        "Lean more conversational: contractions are fine, a touch of personality is fine, as if talking to a friend."@
    } else if choice == "formal"@ {
        "Lean a bit more formal and measured, while still sounding human, not robotic."@
    } else {
        "Sound like a real person talking, not a generated answer."@
    }
}

/// How much like a person the user wants it.
pub fn humanization_instruction(choice: &str) -> (r: &'static str)
    ensures
        r@ == humanization_instruction_text(choice@),
{
    if same(choice, "conversational") {
        "Lean more conversational: contractions are fine, a touch of personality is fine, as if talking to a friend."
    } else if same(choice, "formal") {
        "Lean a bit more formal and measured, while still sounding human, not robotic."
    } else {
        "Sound like a real person talking, not a generated answer."
    }
}

/// Wordings that ask for a list or for steps.
pub open spec fn explicit_list_markers() -> Seq<Seq<char>> {
    seq!["list the steps"@, "list them"@, "list out"@, "give me the steps"@, "give me a list"@, "can you break that down"@, "break it down"@, "break this down"@, "walk me through it step by step"@, "walk me through step by step"@, "step by step"@, "step-by-step"@, "list the types of"@, "list the different types of"@, "what are all the"@]
}

fn explicit_list_markers_list() -> (r: Vec<&'static str>)
    ensures
        str_views(r@) == explicit_list_markers(),
{
    let list: Vec<&'static str> = vec!["list the steps", "list them", "list out", "give me the steps", "give me a list", "can you break that down", "break it down", "break this down", "walk me through it step by step", "walk me through step by step", "step by step", "step-by-step", "list the types of", "list the different types of", "what are all the"];
    proof {
        assert(str_views(list@) =~= explicit_list_markers());
    }
    list
}

/// Wordings that ask for an architecture.
pub open spec fn architecture_explicit_markers() -> Seq<Seq<char>> {
    seq!["explain the architecture"@, "walk me through the architecture"@, "walk me through the system design"@, "explain the system design"@]
}

fn architecture_explicit_markers_list() -> (r: Vec<&'static str>)
    ensures
        str_views(r@) == architecture_explicit_markers(),
{
    let list: Vec<&'static str> = vec!["explain the architecture", "walk me through the architecture", "walk me through the system design", "explain the system design"];
    proof {
        assert(str_views(list@) =~= architecture_explicit_markers());
    }
    list
}

/// Words for the whole of something.
pub open spec fn very_long_scope_words() -> Seq<Seq<char>> {
    seq!["complete"@, "entire"@, "whole"@, "full"@]
}

fn very_long_scope_words_list() -> (r: Vec<&'static str>)
    ensures
        str_views(r@) == very_long_scope_words(),
{
    let list: Vec<&'static str> = vec!["complete", "entire", "whole", "full"];
    proof {
        assert(str_views(list@) =~= very_long_scope_words());
    }
    list
}

/// Words for things that have a whole.
pub open spec fn very_long_topic_words() -> Seq<Seq<char>> {
    seq!["architecture"@, "implementation"@, "system"@, "pipeline"@, "design"@, "flow"@, "workflow"@]
}

fn very_long_topic_words_list() -> (r: Vec<&'static str>)
    ensures
        str_views(r@) == very_long_topic_words(),
{
    let list: Vec<&'static str> = vec!["architecture", "implementation", "system", "pipeline", "design", "flow", "workflow"];
    proof {
        assert(str_views(list@) =~= very_long_topic_words());
    }
    list
}

/// Wordings that ask for every detail.
pub open spec fn very_long_phrases() -> Seq<Seq<char>> {
    seq!["from start to finish"@, "beginning to end"@, "in full detail"@, "in complete detail"@, "end to end"@, "end-to-end"@, "explain in detail"@, "go into detail"@, "give me the full picture"@, "can you go deeper"@, "in more detail"@]
}

fn very_long_phrases_list() -> (r: Vec<&'static str>)
    ensures
        str_views(r@) == very_long_phrases(),
{
    let list: Vec<&'static str> = vec!["from start to finish", "beginning to end", "in full detail", "in complete detail", "end to end", "end-to-end", "explain in detail", "go into detail", "give me the full picture", "can you go deeper", "in more detail"];
    proof {
        assert(str_views(list@) =~= very_long_phrases());
    }
    list
}

/// How questions for a definition begin.
pub open spec fn definition_openers() -> Seq<Seq<char>> {
    seq!["what is"@, "what are"@, "what's"@, "define"@, "have you used"@, "have you worked with"@, "do you know"@]
}

fn definition_openers_list() -> (r: Vec<&'static str>)
    ensures
        str_views(r@) == definition_openers(),
{
    let list: Vec<&'static str> = vec!["what is", "what are", "what's", "define", "have you used", "have you worked with", "do you know"];
    proof {
        assert(str_views(list@) =~= definition_openers());
    }
    list
}

/// Wordings that ask about one piece of what was said.
pub open spec fn narrow_followup_markers() -> Seq<Seq<char>> {
    seq!["what did you use for"@, "what about the"@, "what about"@, "and what about"@, "explain the first step"@, "explain that step"@, "just that step"@, "only the first"@, "just the first"@]
}

fn narrow_followup_markers_list() -> (r: Vec<&'static str>)
    ensures
        str_views(r@) == narrow_followup_markers(),
{
    let list: Vec<&'static str> = vec!["what did you use for", "what about the", "what about", "and what about", "explain the first step", "explain that step", "just that step", "only the first", "just the first"];
    proof {
        assert(str_views(list@) =~= narrow_followup_markers());
    }
    list
}

/// Wordings that ask for an example only.
pub open spec fn example_scope_markers() -> Seq<Seq<char>> {
    seq!["give me an example"@, "just the example"@, "just give the example"@, "can you be more specific"@, "just that part"@]
}

fn example_scope_markers_list() -> (r: Vec<&'static str>)
    ensures
        str_views(r@) == example_scope_markers(),
{
    let list: Vec<&'static str> = vec!["give me an example", "just the example", "just give the example", "can you be more specific", "just that part"];
    proof {
        assert(str_views(list@) =~= example_scope_markers());
    }
    list
}

/// How long an answer is to be.
#[derive(Debug, Clone, Copy, PartialEq, Eq, Structural)]
pub enum Tier {
    NarrowFollowup,
    Example,
    Long,
    VeryLong,
    Medium,
}

/// What a tier tells the model, and its budget of tokens.
#[derive(Debug, Clone, Copy)]
pub struct LengthTarget {
    pub prompt_text: &'static str,
    pub max_tokens: u32,
}

/// What a tier tells the model.
pub open spec fn tier_text(tier: Tier) -> Seq<char> {
    match tier {
        Tier::NarrowFollowup => "SHORT (about 15-40 words) — this zooms into ONE piece of something already covered. Answer only that piece, plainly — no recap of the broader topic, no re-defining terms already used in this conversation."@,
        Tier::Example => "SHORT (about 15-30 words) — answer only the narrowed thing asked for (e.g. just the example). Stop there even if the ceiling below allows more."@,
        Tier::Long => "The user explicitly asked to have this broken down/listed/explained in detail (about 120-220 words) — this genuinely earns the fuller answer per the FORMAT above; do not compress it. Still plain, spoken language — length means real content, not padding."@,
        Tier::VeryLong => "The user explicitly asked for the complete picture (about 200-320 words) — give the fullest answer per the FORMAT above, covering every real stage, still in plain spoken language. Don't truncate this one to save words, and don't pad it with theory or a wrap-up either."@,
        Tier::Medium => "SHORT (about 15-45 words, 1-4 natural sentences) — this is the default for almost every question, including opinions, \"why\", and comparisons. State the point plainly and stop. Stop there even if the ceiling below allows more."@,
    }
}

/// The budget of a tier.
pub open spec fn tier_tokens(tier: Tier) -> u32 {
    match tier {
        Tier::NarrowFollowup => 85,
        Tier::Example => 65,
        Tier::Long => 380,
        Tier::VeryLong => 540,
        Tier::Medium => 90,
    }
}

/// What a tier tells the model, and its budget of tokens.
pub fn length_target(tier: Tier) -> (r: LengthTarget)
    ensures
        r.prompt_text@ == tier_text(tier),
        r.max_tokens == tier_tokens(tier),
{
    match tier {
        Tier::NarrowFollowup => LengthTarget {
            prompt_text: "SHORT (about 15-40 words) — this zooms into ONE piece of something already covered. Answer only that piece, plainly — no recap of the broader topic, no re-defining terms already used in this conversation.",
            max_tokens: 85,
        },
        Tier::Example => LengthTarget {
            prompt_text: "SHORT (about 15-30 words) — answer only the narrowed thing asked for (e.g. just the example). Stop there even if the ceiling below allows more.",
            max_tokens: 65,
        },
        Tier::Long => LengthTarget {
            prompt_text: "The user explicitly asked to have this broken down/listed/explained in detail (about 120-220 words) — this genuinely earns the fuller answer per the FORMAT above; do not compress it. Still plain, spoken language — length means real content, not padding.",
            max_tokens: 380,
        },
        Tier::VeryLong => LengthTarget {
            prompt_text: "The user explicitly asked for the complete picture (about 200-320 words) — give the fullest answer per the FORMAT above, covering every real stage, still in plain spoken language. Don't truncate this one to save words, and don't pad it with theory or a wrap-up either.",
            max_tokens: 540,
        },
        Tier::Medium => LengthTarget {
            prompt_text: "SHORT (about 15-45 words, 1-4 natural sentences) — this is the default for almost every question, including opinions, \"why\", and comparisons. State the point plainly and stop. Stop there even if the ceiling below allows more.",
            max_tokens: 90,
        },
    }
}

/// The form of an answer, where the wording of the question, in lower case,
/// asks for one.
pub open spec fn format_hint(lowered: Seq<char>) -> Option<Seq<char>> {
    if any_in(lowered, narrow_followup_markers()) || any_in(lowered, example_scope_markers()) {
        Some("Plain spoken answer: 1-2 short sentences, only the specific piece asked about. No headings, no lists, no recap of the broader topic it's part of."@)
    } else if any_in(lowered, architecture_explicit_markers()) {
        Some("Explicit architecture/system-design request: one plain sentence of overview, then a Markdown numbered list with one stage per step, then stop. No closing summary."@)
    } else if any_in(lowered, explicit_list_markers()) {
        Some("Explicit list/steps request: a short Markdown numbered list or bullets, one item per line, no padding. A brief opening sentence is fine; skip a closing paragraph."@)
    } else if any_opens(lowered, definition_openers()) {
        Some("Plain spoken answer: 1-3 short sentences, no headings, no lists."@)
    } else {
        None
    }
}

/// The view of an optional fixed text.
pub open spec fn opt_str_view(s: Option<&'static str>) -> Option<Seq<char>> {
    match s {
        Some(t) => Some(t@),
        None => None,
    }
}

/// The form of an answer, told from a question in lower case.
pub fn classify_format_lowered(lowered: &str) -> (r: Option<&'static str>)
    ensures
        opt_str_view(r) == format_hint(lowered@),
{
    let text: Vec<char> = to_chars(lowered);
    if contains_any(&text, &narrow_followup_markers_list()) || contains_any(
        &text,
        &example_scope_markers_list(),
    ) {
        return Some("Plain spoken answer: 1-2 short sentences, only the specific piece asked about. No headings, no lists, no recap of the broader topic it's part of.");
    }
    if contains_any(&text, &architecture_explicit_markers_list()) {
        return Some("Explicit architecture/system-design request: one plain sentence of overview, then a Markdown numbered list with one stage per step, then stop. No closing summary.");
    }
    if contains_any(&text, &explicit_list_markers_list()) {
        return Some("Explicit list/steps request: a short Markdown numbered list or bullets, one item per line, no padding. A brief opening sentence is fine; skip a closing paragraph.");
    }
    if opens_with_any(&text, &definition_openers_list()) {
        return Some("Plain spoken answer: 1-3 short sentences, no headings, no lists.");
    }
    None
}

/// The form of an answer, where the wording of the question asks for one.
pub fn classify_format(question: &str) -> (r: Option<&'static str>)
    ensures
        opt_str_view(r) == format_hint(lowercase(question@)),
{
    let lowered: String = to_lowercase(question);
    classify_format_lowered(lowered.as_str())
}

/// The tier that the wording of a question, in lower case, asks for, if any.
pub open spec fn asked_tier(lowered: Seq<char>) -> Option<Tier> {
    if any_in(lowered, narrow_followup_markers()) {
        Some(Tier::NarrowFollowup)
    } else if any_in(lowered, example_scope_markers()) {
        Some(Tier::Example)
    } else if any_in(lowered, very_long_phrases()) || (any_in(lowered, very_long_scope_words())
        && any_in(lowered, very_long_topic_words())) {
        Some(Tier::VeryLong)
    } else if any_in(lowered, architecture_explicit_markers()) || any_in(
        lowered,
        explicit_list_markers(),
    ) {
        Some(Tier::Long)
    } else {
        None
    }
}

/// What a question, in lower case, has the model told of the length, and the
/// budget of tokens.
pub open spec fn length_hint(lowered: Seq<char>) -> (Seq<char>, u32) {
    match asked_tier(lowered) {
        Some(tier) => (tier_text(tier), tier_tokens(tier)),
        None => (DEFAULT_JUDGE_TEXT@, tier_tokens(Tier::Medium)),
    }
}

/// The length of an answer, told from a question in lower case.
pub fn classify_length_lowered(lowered: &str) -> (r: (&'static str, u32))
    ensures
        (r.0@, r.1) == length_hint(lowered@),
{
    let text: Vec<char> = to_chars(lowered);
    if contains_any(&text, &narrow_followup_markers_list()) {
        let t: LengthTarget = length_target(Tier::NarrowFollowup);
        return (t.prompt_text, t.max_tokens);
    }
    if contains_any(&text, &example_scope_markers_list()) {
        let t: LengthTarget = length_target(Tier::Example);
        return (t.prompt_text, t.max_tokens);
    }
    let phrase: bool = contains_any(&text, &very_long_phrases_list());
    let scope: bool = contains_any(&text, &very_long_scope_words_list());
    let topic: bool = contains_any(&text, &very_long_topic_words_list());
    if phrase || (scope && topic) {
        let t: LengthTarget = length_target(Tier::VeryLong);
        return (t.prompt_text, t.max_tokens);
    }
    if contains_any(&text, &architecture_explicit_markers_list()) || contains_any(
        &text,
        &explicit_list_markers_list(),
    ) {
        let t: LengthTarget = length_target(Tier::Long);
        return (t.prompt_text, t.max_tokens);
    }
    let t: LengthTarget = length_target(Tier::Medium);
    (DEFAULT_JUDGE_TEXT, t.max_tokens)
}

/// The length of an answer: what the model is told, and the budget of tokens.
pub fn classify_length(question: &str) -> (r: (&'static str, u32))
    ensures
        (r.0@, r.1) == length_hint(lowercase(question@)),
{
    let lowered: String = to_lowercase(question);
    classify_length_lowered(lowered.as_str())
}

/// The user's background: what is known of them and their documents.
pub open spec fn background_blocks(request: AskRequest) -> Seq<Seq<char>> {
    (match opt_view(request.candidate_context) {
        Some(c) => seq!["About the user:\n"@ + c],
        None => Seq::empty(),
    }) + (if request.retrieved_context@.len() > 0 {
        seq![
            "The user's attached documents:\n"@ + joined(
                passage_texts(request.retrieved_context@),
                "\n\n"@,
            ),
        ]
    } else {
        Seq::empty()
    })
}

/// The texts of passages.
pub fn passages(chunks: &Vec<AskRetrievedChunk>) -> (r: Vec<String>)
    ensures
        views(r@) == passage_texts(chunks@),
{
    let mut out: Vec<String> = Vec::new();
    let mut i: usize = 0;
    while i < chunks.len()
        invariant
            i <= chunks@.len(),
            out@.len() == i,
            forall|j: int| 0 <= j < i ==> (#[trigger] out@[j])@ == chunks@[j].text@,
        decreases chunks@.len() - i,
    {
        out.push(chunks[i].text.clone());
        i += 1;
    }
    proof {
        assert(views(out@) =~= passage_texts(chunks@));
    }
    out
}

/// The user's background, block by block; a block without content is left out.
pub fn context_blocks(request: &AskRequest) -> (r: Vec<String>)
    ensures
        views(r@) == background_blocks(*request),
{
    let mut blocks: Vec<String> = Vec::new();
    match &request.candidate_context {
        Some(c) => {
            let mut block: String = "About the user:\n".to_owned();
            block.append(c.as_str());
            blocks.push(block);
        },
        None => {},
    }
    if request.retrieved_context.len() > 0 {
        let mut block: String = "The user's attached documents:\n".to_owned();
        let texts: Vec<String> = passages(&request.retrieved_context);
        let all: String = join(&texts, "\n\n");
        block.append(all.as_str());
        blocks.push(block);
    }
    proof {
        assert(views(blocks@) =~= background_blocks(*request));
    }
    blocks
}

/// The line on the form of the answer.
pub open spec fn format_line(question: Seq<char>) -> Seq<char> {
    match format_hint(lowercase(question)) {
        Some(hint) => hint + "\n\n"@,
        None => "Pick the matching FORMAT from the system prompt above.\n\n"@,
    }
}

/// The line on the form of the answer.
pub fn format_line_text(question: &str) -> (r: String)
    ensures
        r@ == format_line(question@),
{
    match classify_format(question) {
        Some(hint) => {
            let mut line: String = hint.to_owned();
            line.append("\n\n");
            line
        },
        None => "Pick the matching FORMAT from the system prompt above.\n\n".to_owned(),
    }
}

/// The parts of the user's message.
pub open spec fn prompt_parts(request: AskRequest) -> Seq<Seq<char>> {
    let blocks = background_blocks(request);
    (if blocks.len() > 0 {
        seq![
            "SUPPORTING BACKGROUND (optional — use only what is relevant to the question below; it is not a limit on what you can answer, and it must never be mentioned or referred to as a source):\n\n"@
                + joined(blocks, "\n\n"@),
        ]
    } else {
        Seq::empty()
    }) + seq![
        "The user asks:\n"@ + request.question@,
        format_line(request.question@)
            + "TARGET LENGTH FOR THIS SPECIFIC QUESTION (the binding instruction — follow this number, not a habit of always answering the same length): "@
            + length_hint(lowercase(request.question@)).0
            + "\n(User's overall ceiling, only relevant if it would push you shorter than the target above: "@
            + length_instruction_text(request.answer_length@) + ")\n\n"@
            + style_instruction_text(request.response_style@) + " "@
            + humanization_instruction_text(request.humanization@)
            + "\n\nIf this is an action request (see ACTION-TAKING above), ignore all of the above and reply with only the ACTION line. Otherwise, reply with the answer only, using that exact format and hitting that target length — two answers to different questions should read as clearly different lengths, not the same length every time."@,
    ]
}

/// The user's message: background, question and instructions.
pub fn build_user_prompt(request: &AskRequest) -> (r: String)
    ensures
        r@ == joined(prompt_parts(*request), "\n\n---\n\n"@),
{
    let mut parts: Vec<String> = Vec::new();
    let blocks: Vec<String> = context_blocks(request);
    if blocks.len() > 0 {
        let mut part: String = "SUPPORTING BACKGROUND (optional — use only what is relevant to the question below; it is not a limit on what you can answer, and it must never be mentioned or referred to as a source):\n\n".to_owned();
        let all: String = join(&blocks, "\n\n");
        part.append(all.as_str());
        parts.push(part);
    }
    let mut ask: String = "The user asks:\n".to_owned();
    ask.append(request.question.as_str());
    parts.push(ask);
    let mut tail: String = format_line_text(request.question.as_str());
    tail.append("TARGET LENGTH FOR THIS SPECIFIC QUESTION (the binding instruction — follow this number, not a habit of always answering the same length): ");
    let (hint, _budget) = classify_length(request.question.as_str());
    tail.append(hint);
    tail.append("\n(User's overall ceiling, only relevant if it would push you shorter than the target above: ");
    tail.append(length_instruction(request.answer_length.as_str()));
    tail.append(")\n\n");
    tail.append(style_instruction(request.response_style.as_str()));
    tail.append(" ");
    tail.append(humanization_instruction(request.humanization.as_str()));
    tail.append("\n\nIf this is an action request (see ACTION-TAKING above), ignore all of the above and reply with only the ACTION line. Otherwise, reply with the answer only, using that exact format and hitting that target length — two answers to different questions should read as clearly different lengths, not the same length every time.");
    parts.push(tail);
    proof {
        assert(views(parts@) =~= prompt_parts(*request));
    }
    join(&parts, "\n\n---\n\n")
}

/// The messages for a question: who the assistant is, the conversation so far,
/// and the question.
pub open spec fn messages_for(request: AskRequest) -> Seq<ChatView> {
    (seq![system_message(system_prompt_text("Veronica"@))] + replayed(
        exchange_views(request.conversation_history@),
    )).push(user_message(joined(prompt_parts(request), "\n\n---\n\n"@)))
}

/// The messages for a question.
pub fn build_messages(request: &AskRequest) -> (r: Vec<ChatMessage>)
    ensures
        chat_views(r@) == messages_for(*request),
{
    let mut messages: Vec<ChatMessage> = Vec::new();
    push_message(&mut messages, ChatMessage::system(system_prompt("Veronica")));
    proof {
        assert(chat_views(messages@) =~= seq![system_message(system_prompt_text("Veronica"@))]);
    }
    push_history(&mut messages, &request.conversation_history);
    push_message(&mut messages, ChatMessage::user(build_user_prompt(request)));
    messages
}

/// The smaller of two budgets.
pub open spec fn at_most(a: u32, b: u32) -> u32 {
    if a < b {
        a
    } else {
        b
    }
}

/// The budget of tokens for a question: what its wording asks for, and no more
/// than 120 where the user wants it brief.
pub open spec fn token_budget(question: Seq<char>, answer_length: Seq<char>) -> u32 {
    let asked = length_hint(lowercase(question)).1;
    if answer_length == "brief"@ {
        at_most(asked, 120)
    } else {
        asked
    }
}

/// The budget of tokens for a question.
pub fn max_tokens_for_question(request: &AskRequest) -> (r: u32)
    ensures
        r == token_budget(request.question@, request.answer_length@),
{
    let (_text, asked) = classify_length(request.question.as_str());
    if same(request.answer_length.as_str(), "brief") && asked > 120 {
        120
    } else {
        asked
    }
}

/// Wanting it brief never makes the budget of a question larger, and every
/// budget is one of the tiers' or 120.
pub proof fn brief_never_inflates(question: Seq<char>, answer_length: Seq<char>)
    ensures
        token_budget(question, "brief"@) <= token_budget(question, answer_length),
        token_budget(question, "brief"@) <= 120,
        token_budget(question, answer_length) <= tier_tokens(Tier::VeryLong),
{
}

/// The wordings that decide are known: a text with one of them has one of its
/// kind, and there are no others.
pub proof fn the_wordings_are_known(text: Seq<char>)
    ensures
        explicit_list_markers().len() == 15,
        contains(text, "list the steps"@)
            || contains(text, "list them"@)
            || contains(text, "list out"@)
            || contains(text, "give me the steps"@)
            || contains(text, "give me a list"@)
            || contains(text, "can you break that down"@)
            || contains(text, "break it down"@)
            || contains(text, "break this down"@)
            || contains(text, "walk me through it step by step"@)
            || contains(text, "walk me through step by step"@)
            || contains(text, "step by step"@)
            || contains(text, "step-by-step"@)
            || contains(text, "list the types of"@)
            || contains(text, "list the different types of"@)
            || contains(text, "what are all the"@) ==> any_in(text, explicit_list_markers()),
        architecture_explicit_markers().len() == 4,
        contains(text, "explain the architecture"@)
            || contains(text, "walk me through the architecture"@)
            || contains(text, "walk me through the system design"@)
            || contains(text, "explain the system design"@) ==> any_in(text, architecture_explicit_markers()),
        very_long_scope_words().len() == 4,
        contains(text, "complete"@)
            || contains(text, "entire"@)
            || contains(text, "whole"@)
            || contains(text, "full"@) ==> any_in(text, very_long_scope_words()),
        very_long_topic_words().len() == 7,
        contains(text, "architecture"@)
            || contains(text, "implementation"@)
            || contains(text, "system"@)
            || contains(text, "pipeline"@)
            || contains(text, "design"@)
            || contains(text, "flow"@)
            || contains(text, "workflow"@) ==> any_in(text, very_long_topic_words()),
        very_long_phrases().len() == 11,
        contains(text, "from start to finish"@)
            || contains(text, "beginning to end"@)
            || contains(text, "in full detail"@)
            || contains(text, "in complete detail"@)
            || contains(text, "end to end"@)
            || contains(text, "end-to-end"@)
            || contains(text, "explain in detail"@)
            || contains(text, "go into detail"@)
            || contains(text, "give me the full picture"@)
            || contains(text, "can you go deeper"@)
            || contains(text, "in more detail"@) ==> any_in(text, very_long_phrases()),
        definition_openers().len() == 7,
        starts_with(text, "what is"@)
            || starts_with(text, "what are"@)
            || starts_with(text, "what's"@)
            || starts_with(text, "define"@)
            || starts_with(text, "have you used"@)
            || starts_with(text, "have you worked with"@)
            || starts_with(text, "do you know"@) ==> any_opens(text, definition_openers()),
        narrow_followup_markers().len() == 9,
        contains(text, "what did you use for"@)
            || contains(text, "what about the"@)
            || contains(text, "what about"@)
            || contains(text, "and what about"@)
            || contains(text, "explain the first step"@)
            || contains(text, "explain that step"@)
            || contains(text, "just that step"@)
            || contains(text, "only the first"@)
            || contains(text, "just the first"@) ==> any_in(text, narrow_followup_markers()),
        example_scope_markers().len() == 5,
        contains(text, "give me an example"@)
            || contains(text, "just the example"@)
            || contains(text, "just give the example"@)
            || contains(text, "can you be more specific"@)
            || contains(text, "just that part"@) ==> any_in(text, example_scope_markers()),
{
    assert(explicit_list_markers()[0] == "list the steps"@);
    assert(explicit_list_markers()[1] == "list them"@);
    assert(explicit_list_markers()[2] == "list out"@);
    assert(explicit_list_markers()[3] == "give me the steps"@);
    assert(explicit_list_markers()[4] == "give me a list"@);
    assert(explicit_list_markers()[5] == "can you break that down"@);
    assert(explicit_list_markers()[6] == "break it down"@);
    assert(explicit_list_markers()[7] == "break this down"@);
    assert(explicit_list_markers()[8] == "walk me through it step by step"@);
    assert(explicit_list_markers()[9] == "walk me through step by step"@);
    assert(explicit_list_markers()[10] == "step by step"@);
    assert(explicit_list_markers()[11] == "step-by-step"@);
    assert(explicit_list_markers()[12] == "list the types of"@);
    assert(explicit_list_markers()[13] == "list the different types of"@);
    assert(explicit_list_markers()[14] == "what are all the"@);
    assert(architecture_explicit_markers()[0] == "explain the architecture"@);
    assert(architecture_explicit_markers()[1] == "walk me through the architecture"@);
    assert(architecture_explicit_markers()[2] == "walk me through the system design"@);
    assert(architecture_explicit_markers()[3] == "explain the system design"@);
    assert(very_long_scope_words()[0] == "complete"@);
    assert(very_long_scope_words()[1] == "entire"@);
    assert(very_long_scope_words()[2] == "whole"@);
    assert(very_long_scope_words()[3] == "full"@);
    assert(very_long_topic_words()[0] == "architecture"@);
    assert(very_long_topic_words()[1] == "implementation"@);
    assert(very_long_topic_words()[2] == "system"@);
    assert(very_long_topic_words()[3] == "pipeline"@);
    assert(very_long_topic_words()[4] == "design"@);
    assert(very_long_topic_words()[5] == "flow"@);
    assert(very_long_topic_words()[6] == "workflow"@);
    assert(very_long_phrases()[0] == "from start to finish"@);
    assert(very_long_phrases()[1] == "beginning to end"@);
    assert(very_long_phrases()[2] == "in full detail"@);
    assert(very_long_phrases()[3] == "in complete detail"@);
    assert(very_long_phrases()[4] == "end to end"@);
    assert(very_long_phrases()[5] == "end-to-end"@);
    assert(very_long_phrases()[6] == "explain in detail"@);
    assert(very_long_phrases()[7] == "go into detail"@);
    assert(very_long_phrases()[8] == "give me the full picture"@);
    assert(very_long_phrases()[9] == "can you go deeper"@);
    assert(very_long_phrases()[10] == "in more detail"@);
    assert(definition_openers()[0] == "what is"@);
    assert(definition_openers()[1] == "what are"@);
    assert(definition_openers()[2] == "what's"@);
    assert(definition_openers()[3] == "define"@);
    assert(definition_openers()[4] == "have you used"@);
    assert(definition_openers()[5] == "have you worked with"@);
    assert(definition_openers()[6] == "do you know"@);
    assert(narrow_followup_markers()[0] == "what did you use for"@);
    assert(narrow_followup_markers()[1] == "what about the"@);
    assert(narrow_followup_markers()[2] == "what about"@);
    assert(narrow_followup_markers()[3] == "and what about"@);
    assert(narrow_followup_markers()[4] == "explain the first step"@);
    assert(narrow_followup_markers()[5] == "explain that step"@);
    assert(narrow_followup_markers()[6] == "just that step"@);
    assert(narrow_followup_markers()[7] == "only the first"@);
    assert(narrow_followup_markers()[8] == "just the first"@);
    assert(example_scope_markers()[0] == "give me an example"@);
    assert(example_scope_markers()[1] == "just the example"@);
    assert(example_scope_markers()[2] == "just give the example"@);
    assert(example_scope_markers()[3] == "can you be more specific"@);
    assert(example_scope_markers()[4] == "just that part"@);
}

/// A question is asked with all that is known: the conversation so far stands
/// before it, in order, and with it stand the question, every passage, what is
/// known of the user, and what the user wishes of the answer.
pub proof fn a_question_is_asked_with_all_that_is_known(request: AskRequest, i: int)
    ensures
        ({
            let sent = messages_for(request);
            let history = request.conversation_history@;
            let asked = sent.last().content;
            &&& sent.len() == 2 * history.len() + 2
            &&& sent[0].role == "system"@
            &&& 0 <= i < history.len() ==> sent[2 * i + 1].role == "user"@ && sent[2 * i
                + 1].content == history[i].question@
            &&& 0 <= i < history.len() ==> sent[2 * i + 2].role == "assistant"@ && sent[2 * i
                + 2].content == history[i].answer@
            &&& sent.last().role == "user"@
            &&& stands_in(asked, request.question@)
            &&& 0 <= i < request.retrieved_context@.len() ==> stands_in(
                asked,
                request.retrieved_context@[i].text@,
            )
            &&& request.candidate_context matches Some(t) ==> stands_in(asked, t@)
            &&& stands_in(asked, length_hint(lowercase(request.question@)).0)
            &&& stands_in(asked, length_instruction_text(request.answer_length@))
            &&& stands_in(asked, style_instruction_text(request.response_style@))
            &&& stands_in(asked, humanization_instruction_text(request.humanization@))
        }),
{
    let history = exchange_views(request.conversation_history@);
    let sent = messages_for(request);
    let told = replayed(history);
    replayed_length(history);
    if 0 <= i < history.len() {
        history_is_replayed_in_order(history, i);
        assert(sent[2 * i + 1] == told[2 * i]);
        assert(sent[2 * i + 2] == told[2 * i + 1]);
    }
    let parts = prompt_parts(request);
    let sep = "\n\n---\n\n"@;
    let asked = joined(parts, sep);
    let blocks = background_blocks(request);
    let at = parts.len() - 2;
    part_stands_in_joined(parts, sep, at);
    part_stands_in_joined(parts, sep, at + 1);
    the_middle_stands_in("The user asks:\n"@, request.question@, Seq::empty());
    assert(parts[at] == "The user asks:\n"@ + request.question@);
    standing_in_passes_on(asked, parts[at], request.question@);
    let wishes = parts[at + 1];
    {
        let before = format_line(request.question@) + "TARGET LENGTH FOR THIS SPECIFIC QUESTION (the binding instruction — follow this number, not a habit of always answering the same length): "@;
        let after = "\n(User's overall ceiling, only relevant if it would push you shorter than the target above: "@ + length_instruction_text(request.answer_length@) + ")\n\n"@ + style_instruction_text(request.response_style@) + " "@ + humanization_instruction_text(request.humanization@) + "\n\nIf this is an action request (see ACTION-TAKING above), ignore all of the above and reply with only the ACTION line. Otherwise, reply with the answer only, using that exact format and hitting that target length — two answers to different questions should read as clearly different lengths, not the same length every time."@;
        the_middle_stands_in(before, length_hint(lowercase(request.question@)).0, after);
        assert(wishes =~= before + length_hint(lowercase(request.question@)).0 + after);
        standing_in_passes_on(asked, wishes, length_hint(lowercase(request.question@)).0);
    }
    {
        let before = format_line(request.question@) + "TARGET LENGTH FOR THIS SPECIFIC QUESTION (the binding instruction — follow this number, not a habit of always answering the same length): "@ + length_hint(lowercase(request.question@)).0 + "\n(User's overall ceiling, only relevant if it would push you shorter than the target above: "@;
        let after = ")\n\n"@ + style_instruction_text(request.response_style@) + " "@ + humanization_instruction_text(request.humanization@) + "\n\nIf this is an action request (see ACTION-TAKING above), ignore all of the above and reply with only the ACTION line. Otherwise, reply with the answer only, using that exact format and hitting that target length — two answers to different questions should read as clearly different lengths, not the same length every time."@;
        the_middle_stands_in(before, length_instruction_text(request.answer_length@), after);
        assert(wishes =~= before + length_instruction_text(request.answer_length@) + after);
        standing_in_passes_on(asked, wishes, length_instruction_text(request.answer_length@));
    }
    {
        let before = format_line(request.question@) + "TARGET LENGTH FOR THIS SPECIFIC QUESTION (the binding instruction — follow this number, not a habit of always answering the same length): "@ + length_hint(lowercase(request.question@)).0 + "\n(User's overall ceiling, only relevant if it would push you shorter than the target above: "@ + length_instruction_text(request.answer_length@) + ")\n\n"@;
        let after = " "@ + humanization_instruction_text(request.humanization@) + "\n\nIf this is an action request (see ACTION-TAKING above), ignore all of the above and reply with only the ACTION line. Otherwise, reply with the answer only, using that exact format and hitting that target length — two answers to different questions should read as clearly different lengths, not the same length every time."@;
        the_middle_stands_in(before, style_instruction_text(request.response_style@), after);
        assert(wishes =~= before + style_instruction_text(request.response_style@) + after);
        standing_in_passes_on(asked, wishes, style_instruction_text(request.response_style@));
    }
    {
        let before = format_line(request.question@) + "TARGET LENGTH FOR THIS SPECIFIC QUESTION (the binding instruction — follow this number, not a habit of always answering the same length): "@ + length_hint(lowercase(request.question@)).0 + "\n(User's overall ceiling, only relevant if it would push you shorter than the target above: "@ + length_instruction_text(request.answer_length@) + ")\n\n"@ + style_instruction_text(request.response_style@) + " "@;
        let after = "\n\nIf this is an action request (see ACTION-TAKING above), ignore all of the above and reply with only the ACTION line. Otherwise, reply with the answer only, using that exact format and hitting that target length — two answers to different questions should read as clearly different lengths, not the same length every time."@;
        the_middle_stands_in(before, humanization_instruction_text(request.humanization@), after);
        assert(wishes =~= before + humanization_instruction_text(request.humanization@) + after);
        standing_in_passes_on(asked, wishes, humanization_instruction_text(request.humanization@));
    }
    if blocks.len() > 0 {
        let head = "SUPPORTING BACKGROUND (optional — use only what is relevant to the question below; it is not a limit on what you can answer, and it must never be mentioned or referred to as a source):\n\n"@;
        let known = joined(blocks, "\n\n"@);
        part_stands_in_joined(parts, sep, 0);
        assert(parts[0] == head + known);
        the_middle_stands_in(head, known, Seq::empty());
        standing_in_passes_on(asked, parts[0], known);
        if request.candidate_context is Some {
            let t = request.candidate_context->Some_0@;
            let k = 0int;
            assert(blocks[k] == "About the user:\n"@ + t);
            part_stands_in_joined(blocks, "\n\n"@, k);
            standing_in_passes_on(asked, known, blocks[k]);
            the_middle_stands_in("About the user:\n"@, t, Seq::empty());
            standing_in_passes_on(asked, blocks[k], t);
        }
        if 0 <= i < request.retrieved_context@.len() {
            let texts = passage_texts(request.retrieved_context@);
            let found = joined(texts, "\n\n"@);
            let k = blocks.len() - 1;
            assert(blocks[k] == "The user's attached documents:\n"@ + found);
            part_stands_in_joined(blocks, "\n\n"@, k);
            standing_in_passes_on(asked, known, blocks[k]);
            the_middle_stands_in("The user's attached documents:\n"@, found, Seq::empty());
            standing_in_passes_on(asked, blocks[k], found);
            part_stands_in_joined(texts, "\n\n"@, i);
            standing_in_passes_on(asked, found, texts[i]);
        }
    }
}

/// What asks for more is given more room, and what asks for one thing only the
/// least.
pub proof fn what_asks_for_more_is_given_more()
    ensures
        tier_tokens(Tier::Example) < tier_tokens(Tier::NarrowFollowup),
        tier_tokens(Tier::NarrowFollowup) < tier_tokens(Tier::Medium),
        tier_tokens(Tier::Medium) < tier_tokens(Tier::Long),
        tier_tokens(Tier::Long) < tier_tokens(Tier::VeryLong),
{
}

/// A question that narrows down is answered narrowly, whatever else it says;
/// only one that asks for steps, a list or the architecture is answered at
/// length, and only one that asks for the complete picture at the greatest; any
/// other gets the room of an ordinary one.
pub proof fn a_narrow_question_is_answered_narrowly(lowered: Seq<char>)
    ensures
        any_in(lowered, narrow_followup_markers()) ==> length_hint(lowered).1 == 85,
        any_in(lowered, example_scope_markers()) ==> length_hint(lowered).1 <= 85,
        any_in(lowered, narrow_followup_markers()) || any_in(lowered, example_scope_markers())
            ==> format_hint(lowered) is Some,
        !any_in(lowered, narrow_followup_markers()) && !any_in(lowered, example_scope_markers())
            ==> length_hint(lowered).1 >= 90,
        length_hint(lowered).1 > 90 ==> any_in(lowered, very_long_phrases()) || (any_in(
            lowered,
            very_long_scope_words(),
        ) && any_in(lowered, very_long_topic_words())) || any_in(
            lowered,
            architecture_explicit_markers(),
        ) || any_in(lowered, explicit_list_markers()),
        length_hint(lowered).1 > 380 ==> any_in(lowered, very_long_phrases()) || (any_in(
            lowered,
            very_long_scope_words(),
        ) && any_in(lowered, very_long_topic_words())),
        (any_in(lowered, explicit_list_markers()) || any_in(
            lowered,
            architecture_explicit_markers(),
        )) && !any_in(lowered, narrow_followup_markers()) && !any_in(
            lowered,
            example_scope_markers(),
        ) ==> length_hint(lowered).1 >= 380 && format_hint(lowered) is Some,
{
}

} // verus!
