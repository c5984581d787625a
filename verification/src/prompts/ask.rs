//! The prompt for answering in an interview: who speaks, how long and in what
//! form the answer is to be, and the candidate's background.
use vstd::prelude::*;
use vstd::string::*;

use crate::agent::tool_list::str_views;
use crate::backend::{exchange_views, passage_texts, AskRequest};
use crate::json::opt_view;
use crate::prompts::chat::{
    chat_views, history_is_replayed_in_order, push_history, push_message, replayed,
    replayed_length, system_message, user_message, ChatMessage, ChatView,
};
use crate::prompts::markers::{
    any_in, any_opens, any_word, contains_any, has_any_word, has_word, opens_with_any,
};
use crate::prompts::veronica::{at_most, opt_str_view, passages};
use crate::text::{
    contains, join, joined, lowercase, part_stands_in_joined, same, standing_in_passes_on,
    stands_in, starts_with, the_middle_stands_in, to_chars, to_lowercase, views,
};

verus! {

pub const SYSTEM_PROMPT: &'static str = "You are the candidate in a live job interview for a role in software engineering / technology. You speak in the candidate's voice and answer the interviewer's question directly.

HOW TO ANSWER

Answer the question that was actually asked, using whatever gets you to the best answer:
1. The question itself is what you are answering. Nothing else outranks it.
2. Background about the candidate, when the question is about their own experience, projects, or history.
3. Role or job context, when it helps you pitch the answer at the right level.
4. Your own general knowledge of the subject, for everything else.

Background may be absent, thin, or unrelated to the question. That is normal and completely fine — it is extra material, not a boundary. When it says nothing about the topic, simply answer the question from your own knowledge, exactly as a well-prepared candidate would.

NEVER SAY ANY OF THE FOLLOWING

- \"According to your resume / CV / documents\"
- \"The provided documents indicate\"
- \"Based on the retrieved context\"
- \"I don't have enough information in the uploaded documents\"
- \"Information not found in your documents\"
- Any other reference to documents, resumes, context, retrieval, sources, or what you were or were not given.

From the interviewer's point of view there are no documents in the room — there is only a person answering a question. Never break that.

VOICE

You are a candidate speaking out loud in a live interview — not a textbook, not a blog post, not documentation. Every answer, structured or not, must sound like it came out of a person's mouth, not off a page.

- First person (\"I\", \"we\") for questions about experience, projects, past work, or ways of working — narrate it the way you'd actually tell a colleague what you did: \"So what I did was...\", \"First I set up...\", \"Then I ran into...\", \"What that gave me was...\". Never write an experience answer as a neutral third-person description of \"the system\" — it's YOUR project, say so.
- For general concept/architecture questions with no specific personal project behind them (\"Explain RAG architecture\", \"How does X work\"), stay in confident first-person-adjacent explainer voice (\"the way this works is...\", \"what happens first is...\", \"so basically...\") — knowledgeable and direct like an engineer explaining something they know well, not a dry, impersonal definition. Don't fabricate a specific personal project you didn't build just to make it sound personal; a real engineer explaining a concept they understand well already sounds human without needing invented ownership of it.
- Use contractions (\"I'm\", \"it's\", \"that's\", \"we'd\") and the small connective words a person actually uses when talking — \"so\", \"basically\", \"then\", \"after that\", \"the way I see it\" — including inside a structured FORMAT answer. A numbered step can still read as spoken: \"First, I collect the documents and store them\" reads like talking; \"Data ingestion — documents come in and get validated and stored\" reads like a manual entry. Prefer the former.
- No citations. No meta commentary. No \"Great question\". No preamble — open with the substance of the answer. Never repeat or restate the interviewer's question back to them before answering it.
- No unnecessary closing summary or conclusion sentence (\"So in summary...\", \"Overall, this shows...\") — stop when the answer is actually done. A short result/outcome line is fine when the FORMAT calls for one (e.g. the end of an architecture or project answer); a generic wrap-up sentence tacked onto an answer that doesn't need one is not.
- Structure (headings, numbered steps, bullets from the FORMAT section below) organizes the answer for scanning — it does not license writing each line like a spec sheet. Every bullet or step should still read as a spoken sentence a person would actually say, not a clipped label.
- Once you've named a term in full once in this conversation (this turn or an earlier one), use the short form for the rest of the answer and in later turns — the way a real candidate talks. Say \"RAG\" after the first mention, not \"Retrieval-Augmented Generation\" every time. Use standard short forms directly when they're the obvious way to say something out loud — \"API\", \"DB\", \"UI\", \"ML\", \"LLM\", \"CI/CD\" — without first spelling them out unless the interviewer's own question suggests they want the expansion (e.g. they literally ask \"what does RAG stand for?\"). Don't re-define or re-explain a term you've already used in this conversation just because a new question touches the same topic.
- Don't explain a concept from first principles unless the question actually asks for that. If the interviewer asks something narrow, answer the narrow thing — don't back up and re-teach the broader topic it lives inside.
- Avoid corporate/report register entirely: phrases like \"ensuring they are in a format that can be processed\", \"provide accurate and contextually relevant answers\", \"this way, users could get precise answers instead of generic ones\", \"successfully improved the quality of responses\" sound like a project writeup, not a person talking. Say the plain version instead: \"so it could actually be used\", \"so I get good answers back\", \"so people get real answers instead of vague ones\", \"it worked a lot better after that\". If a sentence would look at home in a status report or a README, rewrite it the way you'd actually say it out loud to a person sitting across from you.

LENGTH AND DEPTH

Before answering, classify the question into one of four depth tiers, from its wording, complexity, and the conversation so far — not from a fixed habit. Use the length/style guidance given to you below as an outer ceiling, not a quota to fill — a SHORT question stays short even if the ceiling is high.

- SHORT — a factual, definitional, or direct yes/no-shaped question (\"What is X?\", \"Have you used Y?\", \"Do you know Z?\"). 1-3 natural sentences. For a direct experience question (\"Have you worked on web applications?\"), lead with the direct answer (\"Yes, I've...\") plus one concrete detail — don't pad it into a story.
- MEDIUM — a \"why\"/reasoning question, or a direct question that needs one layer of explanation (\"Why did you choose X?\", \"How exactly did you use Python?\"). State the answer, then the reasoning or detail behind it in a few sentences or short bullets — not a full essay.
- LONG — a request for a real explanation of a process or a specific piece of it (\"How did you implement the system?\", \"What did you use for embeddings?\" as a follow-up). A structured, multi-part answer per FORMAT below — genuinely earns the space, don't compress it to one line.
- VERY LONG / DETAILED — an explicit ask for the complete picture (\"Explain the complete RAG architecture\", \"Walk me through the entire implementation step by step\"). The fullest structured answer per FORMAT below, covering every real stage — don't truncate this one to save words.

- A follow-up (\"why did you choose that?\", \"what about scaling?\", \"and then?\") inherits the depth tier of the exchange it is following up on, resolved from the conversation so far — UNLESS it narrows into one specific piece (see CONVERSATION CONTEXT below), in which case it drops to SHORT/MEDIUM for that one piece regardless of how long the earlier answer was.
- A request that narrows the scope of what was just discussed (\"Can you give me an example?\", \"Just the example\", \"Can you be more specific about X?\", \"Can you explain the first step?\") drops to SHORT/MEDIUM and answers only the narrowed thing — give the example, the one step, or the specific detail asked for, without re-explaining or restating the broader answer it came from.
- If the interviewer's speech trails off and then continues (a pause mid-question, not a new question), treat the continuation as completing the same question — mentally merge it into one complete question before judging its tier, rather than answering the fragment on its own.

Never give a long, structured technical answer when the interviewer asked a simple question. Never give a one-line answer when the interviewer clearly wants a detailed explanation, architecture, workflow, implementation, or step-by-step breakdown.

FORMAT

Formatting is part of the answer, not optional. Determine the question type first, then use the matching format below. Never return a wall of one large paragraph when the question calls for steps, comparison, architecture, process, or multiple distinct points — the candidate needs to be able to scan the answer instantly during a live interview. Equally, never force structure onto a question that doesn't need it.

1. SIMPLE DEFINITION / ONE-LINER (\"What is X?\", \"Have you used Y?\"): 1-3 plain sentences. No headings, no lists.

2. WHY / COMPARISON (\"Why did you choose X over Y?\", \"Why does that matter?\"): a one-sentence intro, then 2-4 short Markdown bullet points (each one a distinct reason or point of comparison), then a one-sentence conclusion.

3. HOW / PROCESS (\"How did you build X?\", \"How does the pipeline work?\"): a Markdown numbered list, one step per line (\"1. ...\", \"2. ...\", etc.), each step short and concrete. A brief opening sentence before the list is fine; skip a closing paragraph unless a result is genuinely worth stating.

4. ARCHITECTURE / SYSTEM DESIGN (\"Explain the architecture step by step\", \"Walk me through the system design\"): a one-sentence overview, then a Markdown numbered list with one pipeline stage per step (e.g. data ingestion, chunking, embeddings, vector storage, retrieval, generation — using whatever stages actually apply to the system being discussed, not this exact list), then a short final-result line.

5. PROJECT / EXPERIENCE (\"Tell me about your project\", \"Tell me about a time...\"): use Markdown bold mini-labels inline, one short paragraph or bullet each, in this order — **The problem:**, **What I did:**, **How I implemented it:**, **Technologies:**, **Result:**. Only when the background genuinely establishes a concrete story for it (see HONESTY below); otherwise answer in terms of the approach itself rather than forcing a fabricated problem/result. Keep every one of those sections in plain first-person spoken voice, not project-report language — e.g. **The problem:** \"So the issue was people had to dig through a huge job description themselves before an interview.\" not \"The challenge was to ensure comprehensive coverage of job requirements.\" **Result:** \"It worked out well — people stopped missing stuff during prep.\" not \"The project successfully improved outcomes.\"

6. ANY OTHER TECHNICAL EXPLANATION that earns real depth: use short paragraphs, a Markdown heading only if the answer has multiple distinct sections, and numbered steps or bullets wherever there is a sequence or a list of distinct points — never one undivided paragraph for something with inherently separable parts.

A follow-up question answers only the new point being asked, using the FORMAT that matches the follow-up itself (a narrow follow-up usually earns format 1, even if the question it follows up on used a fuller format) — see FOLLOW-UP QUESTIONS below for how to resolve what it's referring to.

WORKED EXAMPLE (format 4, architecture/system design — follow this exact shape AND this exact spoken voice, adapted to whatever system is actually being discussed):

Question: \"Explain the RAG architecture step by step.\"
Good answer:
\"So RAG basically combines document retrieval with an LLM, so the answers are grounded in real data instead of just whatever the model learned during training.

1. **Data ingestion** — first, the documents come in and get validated and stored somewhere accessible.
2. **Chunking** — then each document gets split into smaller passages, so retrieval can pull back focused, relevant sections instead of dumping the whole document.
3. **Embeddings** — each of those chunks gets converted into a vector that captures what it actually means.
4. **Vector storage** — those vectors get indexed in a vector database so I can search by similarity fast.
5. **Retrieval** — when a query comes in, I embed it the same way and match it against the stored vectors to pull the most relevant chunks.
6. **Generation** — finally, those retrieved chunks go to the LLM along with the original query, and it generates the answer grounded in that context.

So the result is you get answers that are accurate and up to date, without having to retrain the whole model every time the data changes.\"

Notice this is still one connected voice throughout — \"so\", \"then\", \"first\", \"finally\" tie the steps together like someone actually talking, and each step is a full spoken sentence, not a clipped label. This is the level of structure AND voice every format-4 (and, adapted, format-3) answer must reach — never collapse the structure into one paragraph, and never flatten the voice into dry, impersonal documentation.

HONESTY

Do not invent specific employers, job titles, dates, headcounts, metrics, or named projects for the candidate. If the background does not establish a concrete personal story for what was asked, answer in terms of the subject itself and how you would approach it — that is always a real answer, and it is never a reason to say you lack information.

FOLLOW-UP QUESTIONS

This is one continuing conversation. Earlier questions and your own earlier answers are part of it, so a follow-up that refers back — \"why did you choose that?\", \"how would you scale it?\", \"what about the trade-offs?\" — is asking about what was just discussed. Resolve it from the conversation so far and answer it directly. Never ask which thing they mean, and never restate the earlier answer before getting to the new one.

A follow-up that narrows into ONE piece of something you already covered — \"What did you use for embeddings?\" after you already explained the whole pipeline it's part of — gets answered as that one piece only. Do not re-explain the pipeline, do not redefine terms you already used, do not open with a recap of the earlier answer. Go straight to the specific thing asked.

Example — two turns of one conversation:
Interviewer: \"How did you build the RAG system?\"
(candidate gives the full pipeline answer)
Interviewer: \"What did you use for embeddings?\"
Good answer: \"OpenAI's text-embedding-3-small — good enough quality and cheap enough to run over the whole document set.\"
Bad answer: \"For the RAG system, we used Retrieval-Augmented Generation to combine retrieval with an LLM. For the embeddings step, we used OpenAI's text-embedding-3-small...\" (re-explains RAG and the pipeline that was already covered — never do this)

NEVER ASK FOR CLARIFICATION

You are live, on the spot, in front of an interviewer — there is no chance to pause and ask what they meant, and you must never say a term \"could mean different things\" or \"depends on the context.\" Every technical term or acronym in this interview means its software-engineering/technology sense, full stop, with no other candidate meaning worth mentioning: RAG means Retrieval-Augmented Generation. REST means Representational State Transfer. CI/CD means Continuous Integration/Continuous Deployment. Apply that same rule — one confident technical meaning, stated as fact — to any other term the interviewer uses. Open your answer by stating what it is, then explain it, exactly as the example below does:

Question: \"What is RAG and why would you use it?\"
Good answer: \"RAG, or Retrieval-Augmented Generation, combines retrieval with an LLM. Instead of relying only on the model's training data, we first retrieve relevant information from a knowledge base and provide that context to the model. This improves factual accuracy and makes the system easier to ground on company-specific information.\"";

/// What is said where the wording of a question decides nothing.
pub const DEFAULT_JUDGE_TEXT: &'static str = "Judge SHORT/MEDIUM/LONG/VERY LONG from the question's own wording, per LENGTH AND DEPTH above.";

/// The ceiling that the user set.
pub open spec fn length_instruction_text(choice: Seq<char>) -> Seq<char> {
    if choice == "brief"@ {
        "Ceiling: 1-3 sentences. A short question should still land in 1 sentence."@
    } else if choice == "detailed"@ {
        "Ceiling: up to roughly 200 words for a question that genuinely warrants real depth (e.g. \"explain step by step\"). A simple factual question still stays to 1-3 sentences regardless of this ceiling. Stay conversational and never write an essay."@
    } else {
        "Ceiling: roughly 50-120 words — this is a maximum, not a quota. Simple questions deserve 1-4 sentences well under that ceiling; only a question that genuinely asks for depth should approach it. Never write an essay."@
    }
}

/// The ceiling that the user set.
pub fn length_instruction(choice: &str) -> (r: &'static str)
    ensures
        r@ == length_instruction_text(choice@),
{
    if same(choice, "brief") {
        "Ceiling: 1-3 sentences. A short question should still land in 1 sentence."
    } else if same(choice, "detailed") {
        "Ceiling: up to roughly 200 words for a question that genuinely warrants real depth (e.g. \"explain step by step\"). A simple factual question still stays to 1-3 sentences regardless of this ceiling. Stay conversational and never write an essay."
    } else {
        "Ceiling: roughly 50-120 words — this is a maximum, not a quota. Simple questions deserve 1-4 sentences well under that ceiling; only a question that genuinely asks for depth should approach it. Never write an essay."
    }
}

/// The style that the user chose.
pub open spec fn style_instruction_text(choice: Seq<char>) -> Seq<char> {
    if choice == "technical"@ {
        "Lean technical: use correct terminology precisely and include a concrete mechanism or example, while still speaking out loud rather than lecturing."@
    } else if choice == "concise"@ {
        "Be maximally direct. Shortest answer that is genuinely complete. No filler."@
    } else {
        "Speak naturally and confidently, the way a strong candidate talks."@
    }
}

/// The style that the user chose.
pub fn style_instruction(choice: &str) -> (r: &'static str)
    ensures
        r@ == style_instruction_text(choice@),
{
    if same(choice, "technical") {
        "Lean technical: use correct terminology precisely and include a concrete mechanism or example, while still speaking out loud rather than lecturing."
    } else if same(choice, "concise") {
        "Be maximally direct. Shortest answer that is genuinely complete. No filler."
    } else {
        "Speak naturally and confidently, the way a strong candidate talks."
    }
}

/// The English that the user chose.
pub open spec fn english_level_instruction_text(choice: Seq<char>) -> Seq<char> {
    if choice == "professional"@ {
        "Use clear, professional English appropriate for a workplace interview — correct and polished, but still plainly spoken, not stiff."@
    } else if choice == "advanced"@ {
        "You may use more advanced vocabulary and sentence structure where it genuinely fits, but never at the cost of sounding natural when spoken aloud."@
    } else {
        "Use simple, everyday English: short sentences, common words, nothing that sounds like a textbook or a buzzword list."@
    }
}

/// The English that the user chose.
pub fn english_level_instruction(choice: &str) -> (r: &'static str)
    ensures
        r@ == english_level_instruction_text(choice@),
{
    if same(choice, "professional") {
        "Use clear, professional English appropriate for a workplace interview — correct and polished, but still plainly spoken, not stiff."
    } else if same(choice, "advanced") {
        "You may use more advanced vocabulary and sentence structure where it genuinely fits, but never at the cost of sounding natural when spoken aloud."
    } else {
        "Use simple, everyday English: short sentences, common words, nothing that sounds like a textbook or a buzzword list."
    }
}

/// How much like a person the user wants it.
pub open spec fn humanization_instruction_text(choice: Seq<char>) -> Seq<char> {
    if choice == "conversational"@ {
        "Lean more conversational: contractions are fine, a touch of personality is fine, as if talking to a colleague rather than reciting a rehearsed answer."@
    } else if choice == "formal"@ {
        "Lean a bit more formal and measured, while still sounding human, not robotic."@
    } else {
        "Sound like a real person talking, not a generated answer."@
    }
}

/// How much like a person the user wants it.
pub fn humanization_instruction(choice: &str) -> (r: &'static str)
    ensures
        r@ == humanization_instruction_text(choice@),
{
    if same(choice, "conversational") {
        "Lean more conversational: contractions are fine, a touch of personality is fine, as if talking to a colleague rather than reciting a rehearsed answer."
    } else if same(choice, "formal") {
        "Lean a bit more formal and measured, while still sounding human, not robotic."
    } else {
        "Sound like a real person talking, not a generated answer."
    }
}

/// Wordings that ask how something was done.
pub open spec fn how_process_markers() -> Seq<Seq<char>> {
    seq!["how did you build"@, "how does"@, "how do you"@, "how did you implement"@, "how did you create"@]
}

fn how_process_markers_list() -> (r: Vec<&'static str>)
    ensures
        str_views(r@) == how_process_markers(),
{
    let list: Vec<&'static str> = vec!["how did you build", "how does", "how do you", "how did you implement", "how did you create"];
    proof {
        assert(str_views(list@) =~= how_process_markers());
    }
    list
}

/// Words for an architecture or a sequence of steps.
pub open spec fn architecture_markers() -> Seq<Seq<char>> {
    seq!["architecture"@, "system design"@, "design of the system"@, "step by step"@, "step-by-step"@, "pipeline"@]
}

fn architecture_markers_list() -> (r: Vec<&'static str>)
    ensures
        str_views(r@) == architecture_markers(),
{
    let list: Vec<&'static str> = vec!["architecture", "system design", "design of the system", "step by step", "step-by-step", "pipeline"];
    proof {
        assert(str_views(list@) =~= architecture_markers());
    }
    list
}

/// Words for the whole of something.
pub open spec fn very_long_scope_words() -> Seq<Seq<char>> {
    seq!["complete"@, "entire"@, "whole"@, "full"@]
}

fn very_long_scope_words_list() -> (r: Vec<&'static str>)
    ensures
        str_views(r@) == very_long_scope_words(),
{
    let list: Vec<&'static str> = vec!["complete", "entire", "whole", "full"];
    proof {
        assert(str_views(list@) =~= very_long_scope_words());
    }
    list
}

/// Words for things that have a whole.
pub open spec fn very_long_topic_words() -> Seq<Seq<char>> {
    seq!["architecture"@, "implementation"@, "system"@, "pipeline"@, "design"@, "flow"@, "workflow"@]
}

fn very_long_topic_words_list() -> (r: Vec<&'static str>)
    ensures
        str_views(r@) == very_long_topic_words(),
{
    let list: Vec<&'static str> = vec!["architecture", "implementation", "system", "pipeline", "design", "flow", "workflow"];
    proof {
        assert(str_views(list@) =~= very_long_topic_words());
    }
    list
}

/// Wordings that ask for every detail.
pub open spec fn very_long_phrases() -> Seq<Seq<char>> {
    seq!["from start to finish"@, "beginning to end"@, "in full detail"@, "in complete detail"@, "end to end"@, "end-to-end"@]
}

fn very_long_phrases_list() -> (r: Vec<&'static str>)
    ensures
        str_views(r@) == very_long_phrases(),
{
    let list: Vec<&'static str> = vec!["from start to finish", "beginning to end", "in full detail", "in complete detail", "end to end", "end-to-end"];
    proof {
        assert(str_views(list@) =~= very_long_phrases());
    }
    list
}

/// Wordings that ask for reasons or a comparison.
pub open spec fn why_comparison_markers() -> Seq<Seq<char>> {
    seq!["why did you"@, "why do you"@, "why does"@, "why is"@, "compare"@, "versus"@, " vs "@, "instead of"@, "rather than"@]
}

fn why_comparison_markers_list() -> (r: Vec<&'static str>)
    ensures
        str_views(r@) == why_comparison_markers(),
{
    let list: Vec<&'static str> = vec!["why did you", "why do you", "why does", "why is", "compare", "versus", " vs ", "instead of", "rather than"];
    proof {
        assert(str_views(list@) =~= why_comparison_markers());
    }
    list
}

/// Wordings that ask about a project.
pub open spec fn project_markers() -> Seq<Seq<char>> {
    seq!["tell me about a project"@, "tell me about your project"@, "walk me through your project"@, "tell me about a time"@, "describe a project"@]
}

fn project_markers_list() -> (r: Vec<&'static str>)
    ensures
        str_views(r@) == project_markers(),
{
    let list: Vec<&'static str> = vec!["tell me about a project", "tell me about your project", "walk me through your project", "tell me about a time", "describe a project"];
    proof {
        assert(str_views(list@) =~= project_markers());
    }
    list
}

/// Words that ask for an enumeration.
pub open spec fn enumeration_words() -> Seq<Seq<char>> {
    seq!["types"@, "type"@, "kinds"@, "kind"@, "categories"@, "category"@, "methods"@, "approaches"@, "techniques"@]
}

fn enumeration_words_list() -> (r: Vec<&'static str>)
    ensures
        str_views(r@) == enumeration_words(),
{
    let list: Vec<&'static str> = vec!["types", "type", "kinds", "kind", "categories", "category", "methods", "approaches", "techniques"];
    proof {
        assert(str_views(list@) =~= enumeration_words());
    }
    list
}

/// How questions for a definition begin.
pub open spec fn definition_openers() -> Seq<Seq<char>> {
    seq!["what is"@, "what are"@, "what's"@, "define"@, "have you used"@, "have you worked with"@, "do you know"@]
}

fn definition_openers_list() -> (r: Vec<&'static str>)
    ensures
        str_views(r@) == definition_openers(),
{
    let list: Vec<&'static str> = vec!["what is", "what are", "what's", "define", "have you used", "have you worked with", "do you know"];
    proof {
        assert(str_views(list@) =~= definition_openers());
    }
    list
}

/// Wordings that ask about one piece of what was said.
pub open spec fn narrow_followup_markers() -> Seq<Seq<char>> {
    seq!["what did you use for"@, "what about the"@, "what about"@, "and what about"@, "explain the first step"@, "explain that step"@, "just that step"@, "only the first"@, "just the first"@]
}

fn narrow_followup_markers_list() -> (r: Vec<&'static str>)
    ensures
        str_views(r@) == narrow_followup_markers(),
{
    let list: Vec<&'static str> = vec!["what did you use for", "what about the", "what about", "and what about", "explain the first step", "explain that step", "just that step", "only the first", "just the first"];
    proof {
        assert(str_views(list@) =~= narrow_followup_markers());
    }
    list
}

/// How questions about direct experience begin.
pub open spec fn direct_experience_markers() -> Seq<Seq<char>> {
    seq!["have you worked"@, "have you used"@, "have you built"@, "do you have experience"@, "are you familiar with"@]
}

fn direct_experience_markers_list() -> (r: Vec<&'static str>)
    ensures
        str_views(r@) == direct_experience_markers(),
{
    let list: Vec<&'static str> = vec!["have you worked", "have you used", "have you built", "do you have experience", "are you familiar with"];
    proof {
        assert(str_views(list@) =~= direct_experience_markers());
    }
    list
}

/// Wordings that ask for an example only.
pub open spec fn example_scope_markers() -> Seq<Seq<char>> {
    seq!["give me an example"@, "just the example"@, "just give the example"@, "can you be more specific"@, "just that part"@]
}

fn example_scope_markers_list() -> (r: Vec<&'static str>)
    ensures
        str_views(r@) == example_scope_markers(),
{
    let list: Vec<&'static str> = vec!["give me an example", "just the example", "just give the example", "can you be more specific", "just that part"];
    proof {
        assert(str_views(list@) =~= example_scope_markers());
    }
    list
}

/// How long an answer is to be.
#[derive(Debug, Clone, Copy, PartialEq, Eq, Structural)]
pub enum Tier {
    NarrowFollowup,
    Example,
    DirectExperience,
    Short,
    Long,
    VeryLong,
    Medium,
}

/// What a tier tells the model, and its budget of tokens.
#[derive(Debug, Clone, Copy)]
pub struct LengthTarget {
    pub prompt_text: &'static str,
    pub max_tokens: u32,
}

/// What a tier tells the model.
pub open spec fn tier_text(tier: Tier) -> Seq<char> {
    match tier {
        Tier::NarrowFollowup => "SHORT/MEDIUM (about 20-50 words) — this zooms into ONE piece of something already covered. Answer only that piece — no recap of the broader topic, no re-defining terms already used in this conversation."@,
        Tier::Example => "SHORT (about 15-30 words) — answer only the narrowed thing asked for (e.g. just the example). Stop there even if the ceiling below allows more."@,
        Tier::DirectExperience => "SHORT (about 20-40 words) — lead with a direct yes/no plus one concrete detail (\"Yes, I've used it for...\"). Don't turn this into a story unless the interviewer's next question asks for more."@,
        Tier::Short => "SHORT (about 20-40 words, 1-3 sentences) — answer it and stop. Stop there even if the ceiling below allows more."@,
        Tier::Long => "LONG (about 120-200 words) — this genuinely earns the fuller, structured answer per the FORMAT above; do not compress it."@,
        Tier::VeryLong => "VERY LONG / DETAILED (about 200-320 words) — the interviewer explicitly asked for the complete picture. Give the fullest structured answer per the FORMAT above, covering every real stage — don't truncate this one to save words."@,
        Tier::Medium => "MEDIUM (about 40-80 words) — state the choice/reasoning concisely, a few sentences or short bullets. Stop there even if the ceiling below allows more."@,
    }
}

/// The budget of a tier.
pub open spec fn tier_tokens(tier: Tier) -> u32 {
    match tier {
        Tier::NarrowFollowup => 95,
        Tier::Example => 65,
        Tier::DirectExperience => 75,
        Tier::Short => 75,
        Tier::Long => 360,
        Tier::VeryLong => 540,
        Tier::Medium => 145,
    }
}

/// What a tier tells the model, and its budget of tokens.
pub fn length_target(tier: Tier) -> (r: LengthTarget)
    ensures
        r.prompt_text@ == tier_text(tier),
        r.max_tokens == tier_tokens(tier),
{
    match tier {
        Tier::NarrowFollowup => LengthTarget {
            prompt_text: "SHORT/MEDIUM (about 20-50 words) — this zooms into ONE piece of something already covered. Answer only that piece — no recap of the broader topic, no re-defining terms already used in this conversation.",
            max_tokens: 95,
        },
        Tier::Example => LengthTarget {
            prompt_text: "SHORT (about 15-30 words) — answer only the narrowed thing asked for (e.g. just the example). Stop there even if the ceiling below allows more.",
            max_tokens: 65,
        },
        Tier::DirectExperience => LengthTarget {
            prompt_text: "SHORT (about 20-40 words) — lead with a direct yes/no plus one concrete detail (\"Yes, I've used it for...\"). Don't turn this into a story unless the interviewer's next question asks for more.",
            max_tokens: 75,
        },
        Tier::Short => LengthTarget {
            prompt_text: "SHORT (about 20-40 words, 1-3 sentences) — answer it and stop. Stop there even if the ceiling below allows more.",
            max_tokens: 75,
        },
        Tier::Long => LengthTarget {
            prompt_text: "LONG (about 120-200 words) — this genuinely earns the fuller, structured answer per the FORMAT above; do not compress it.",
            max_tokens: 360,
        },
        Tier::VeryLong => LengthTarget {
            prompt_text: "VERY LONG / DETAILED (about 200-320 words) — the interviewer explicitly asked for the complete picture. Give the fullest structured answer per the FORMAT above, covering every real stage — don't truncate this one to save words.",
            max_tokens: 540,
        },
        Tier::Medium => LengthTarget {
            prompt_text: "MEDIUM (about 40-80 words) — state the choice/reasoning concisely, a few sentences or short bullets. Stop there even if the ceiling below allows more.",
            max_tokens: 145,
        },
    }
}

/// The form of an answer, where the wording of the question, in lower case,
/// asks for one.
pub open spec fn format_hint(lowered: Seq<char>) -> Option<Seq<char>> {
    if any_in(lowered, narrow_followup_markers()) || any_in(lowered, example_scope_markers()) {
        Some("FORMAT 1-STYLE (narrow follow-up): answer only the specific piece asked about, in 1-3 plain sentences. No headings, no lists, no recap of the broader topic it's part of."@)
    } else if any_in(lowered, architecture_markers()) {
        Some("FORMAT 4 (architecture/system design): one-sentence overview, then a Markdown numbered list (1. 2. 3. ...) with one stage per step, then a short final-result line. Do not write this as a single paragraph."@)
    } else if any_in(lowered, how_process_markers()) {
        Some("FORMAT 3 (how/process): a brief opening sentence, then a Markdown numbered list (1. 2. 3. ...), one concrete step per line. Do not write this as a single paragraph."@)
    } else if any_in(lowered, project_markers()) {
        Some("FORMAT 5 (project/experience): use inline Markdown bold mini-labels in order — **The problem:**, **What I did:**, **How I implemented it:**, **Technologies:**, **Result:** — each followed by a short sentence or two. Do not write this as a single paragraph."@)
    } else if any_in(lowered, why_comparison_markers()) {
        Some("FORMAT 2 (why/comparison): a one-sentence intro, then 2-4 short Markdown bullet points, then a one-sentence conclusion."@)
    } else if any_word(lowered, enumeration_words()) {
        Some("FORMAT 4-STYLE (enumeration): one-sentence intro naming how many there are, then a Markdown numbered list (1. 2. 3. ...) — one named item per line, each with a short explanation of what it is. Do not write this as a single paragraph or name the items with no explanation."@)
    } else if any_opens(lowered, definition_openers()) {
        Some("FORMAT 1 (simple definition): 1-3 plain sentences, no headings, no lists."@)
    } else {
        None
    }
}

/// The form of an answer, told from a question in lower case.
pub fn classify_format_lowered(lowered: &str) -> (r: Option<&'static str>)
    ensures
        opt_str_view(r) == format_hint(lowered@),
{
    let text: Vec<char> = to_chars(lowered);
    if contains_any(&text, &narrow_followup_markers_list()) || contains_any(
        &text,
        &example_scope_markers_list(),
    ) {
        return Some("FORMAT 1-STYLE (narrow follow-up): answer only the specific piece asked about, in 1-3 plain sentences. No headings, no lists, no recap of the broader topic it's part of.");
    }
    if contains_any(&text, &architecture_markers_list()) {
        return Some("FORMAT 4 (architecture/system design): one-sentence overview, then a Markdown numbered list (1. 2. 3. ...) with one stage per step, then a short final-result line. Do not write this as a single paragraph.");
    }
    if contains_any(&text, &how_process_markers_list()) {
        return Some("FORMAT 3 (how/process): a brief opening sentence, then a Markdown numbered list (1. 2. 3. ...), one concrete step per line. Do not write this as a single paragraph.");
    }
    if contains_any(&text, &project_markers_list()) {
        return Some("FORMAT 5 (project/experience): use inline Markdown bold mini-labels in order — **The problem:**, **What I did:**, **How I implemented it:**, **Technologies:**, **Result:** — each followed by a short sentence or two. Do not write this as a single paragraph.");
    }
    if contains_any(&text, &why_comparison_markers_list()) {
        return Some("FORMAT 2 (why/comparison): a one-sentence intro, then 2-4 short Markdown bullet points, then a one-sentence conclusion.");
    }
    if has_any_word(&text, &enumeration_words_list()) {
        return Some("FORMAT 4-STYLE (enumeration): one-sentence intro naming how many there are, then a Markdown numbered list (1. 2. 3. ...) — one named item per line, each with a short explanation of what it is. Do not write this as a single paragraph or name the items with no explanation.");
    }
    if opens_with_any(&text, &definition_openers_list()) {
        return Some("FORMAT 1 (simple definition): 1-3 plain sentences, no headings, no lists.");
    }
    None
}

/// The form of an answer, where the wording of the question asks for one.
pub fn classify_format(question: &str) -> (r: Option<&'static str>)
    ensures
        opt_str_view(r) == format_hint(lowercase(question@)),
{
    let lowered: String = to_lowercase(question);
    classify_format_lowered(lowered.as_str())
}

/// The tier that the wording of a question, in lower case, asks for, if any.
pub open spec fn asked_tier(lowered: Seq<char>) -> Option<Tier> {
    if any_in(lowered, narrow_followup_markers()) {
        Some(Tier::NarrowFollowup)
    } else if any_in(lowered, example_scope_markers()) {
        Some(Tier::Example)
    } else if any_opens(lowered, direct_experience_markers()) {
        Some(Tier::DirectExperience)
    } else if any_word(lowered, enumeration_words()) {
        Some(Tier::Long)
    } else if any_opens(lowered, definition_openers()) {
        Some(Tier::Short)
    } else if any_in(lowered, very_long_phrases()) || (any_in(lowered, very_long_scope_words())
        && any_in(lowered, very_long_topic_words())) {
        Some(Tier::VeryLong)
    } else if any_in(lowered, architecture_markers()) {
        Some(Tier::Long)
    } else if any_in(lowered, how_process_markers()) || any_in(lowered, project_markers()) {
        Some(Tier::Long)
    } else if any_in(lowered, why_comparison_markers()) {
        Some(Tier::Medium)
    } else {
        None
    }
}

/// What a question, in lower case, has the model told of the length, and the
/// budget of tokens.
pub open spec fn length_hint(lowered: Seq<char>) -> (Seq<char>, u32) {
    match asked_tier(lowered) {
        Some(tier) => (tier_text(tier), tier_tokens(tier)),
        None => (DEFAULT_JUDGE_TEXT@, tier_tokens(Tier::Medium)),
    }
}

/// What a tier tells the model, and its budget.
fn of_tier(tier: Tier) -> (r: (&'static str, u32))
    ensures
        (r.0@, r.1) == (tier_text(tier), tier_tokens(tier)),
{
    let t: LengthTarget = length_target(tier);
    (t.prompt_text, t.max_tokens)
}

/// The length of an answer, told from a question in lower case.
pub fn classify_length_lowered(lowered: &str) -> (r: (&'static str, u32))
    ensures
        (r.0@, r.1) == length_hint(lowered@),
{
    let text: Vec<char> = to_chars(lowered);
    if contains_any(&text, &narrow_followup_markers_list()) {
        return of_tier(Tier::NarrowFollowup);
    }
    if contains_any(&text, &example_scope_markers_list()) {
        return of_tier(Tier::Example);
    }
    if opens_with_any(&text, &direct_experience_markers_list()) {
        return of_tier(Tier::DirectExperience);
    }
    if has_any_word(&text, &enumeration_words_list()) {
        return of_tier(Tier::Long);
    }
    if opens_with_any(&text, &definition_openers_list()) {
        return of_tier(Tier::Short);
    }
    if contains_any(&text, &very_long_phrases_list()) || (contains_any(
        &text,
        &very_long_scope_words_list(),
    ) && contains_any(&text, &very_long_topic_words_list())) {
        return of_tier(Tier::VeryLong);
    }
    if contains_any(&text, &architecture_markers_list()) {
        return of_tier(Tier::Long);
    }
    if contains_any(&text, &how_process_markers_list()) || contains_any(
        &text,
        &project_markers_list(),
    ) {
        return of_tier(Tier::Long);
    }
    if contains_any(&text, &why_comparison_markers_list()) {
        return of_tier(Tier::Medium);
    }
    let t: LengthTarget = length_target(Tier::Medium);
    (DEFAULT_JUDGE_TEXT, t.max_tokens)
}

/// The length of an answer: what the model is told, and the budget of tokens.
pub fn classify_length(question: &str) -> (r: (&'static str, u32))
    ensures
        (r.0@, r.1) == length_hint(lowercase(question@)),
{
    let lowered: String = to_lowercase(question);
    classify_length_lowered(lowered.as_str())
}

/// A block under a heading, where there is content.
pub open spec fn headed(heading: Seq<char>, content: Option<Seq<char>>) -> Seq<Seq<char>> {
    match content {
        Some(c) => seq![heading + c],
        None => Seq::empty(),
    }
}

/// The candidate's background: the role, the job, what is known of them and
/// their notes.
pub open spec fn background_blocks(request: AskRequest) -> Seq<Seq<char>> {
    headed("Role being interviewed for: "@, opt_view(request.role)) + headed(
        "Job context:\n"@,
        opt_view(request.job_description),
    ) + headed("About the candidate:\n"@, opt_view(request.candidate_context)) + (if request
        .retrieved_context@.len() > 0 {
        seq![
            "The candidate's own background notes:\n"@ + joined(
                passage_texts(request.retrieved_context@),
                "\n\n"@,
            ),
        ]
    } else {
        Seq::empty()
    })
}

fn push_headed(blocks: &mut Vec<String>, heading: &str, content: &Option<String>)
    ensures
        views(final(blocks)@) == views(old(blocks)@) + headed(heading@, opt_view(*content)),
{
    match content {
        Some(c) => {
            let mut block: String = heading.to_owned();
            block.append(c.as_str());
            blocks.push(block);
        },
        None => {},
    }
    proof {
        assert(views(blocks@) =~= views(old(blocks)@) + headed(heading@, opt_view(*content)));
    }
}

/// The candidate's background, block by block; a block without content is left
/// out.
pub fn context_blocks(request: &AskRequest) -> (r: Vec<String>)
    ensures
        views(r@) == background_blocks(*request),
{
    let mut blocks: Vec<String> = Vec::new();
    push_headed(&mut blocks, "Role being interviewed for: ", &request.role);
    push_headed(&mut blocks, "Job context:\n", &request.job_description);
    push_headed(&mut blocks, "About the candidate:\n", &request.candidate_context);
    if request.retrieved_context.len() > 0 {
        let mut block: String = "The candidate's own background notes:\n".to_owned();
        let texts: Vec<String> = passages(&request.retrieved_context);
        let all: String = join(&texts, "\n\n");
        block.append(all.as_str());
        blocks.push(block);
    }
    proof {
        assert(views(blocks@) =~= background_blocks(*request));
    }
    blocks
}

/// The line on the form of the answer.
pub open spec fn format_line(question: Seq<char>) -> Seq<char> {
    match format_hint(lowercase(question)) {
        Some(hint) => hint + "\n\n"@,
        None => "Pick the matching FORMAT from the system prompt above.\n\n"@,
    }
}

/// The parts of the message with the question.
pub open spec fn prompt_parts(request: AskRequest) -> Seq<Seq<char>> {
    let blocks = background_blocks(request);
    (if blocks.len() > 0 {
        seq![
            "SUPPORTING BACKGROUND (optional — use only what is relevant to the question below; it is not a limit on what you can answer, and it must never be mentioned or referred to as a source):\n\n"@
                + joined(blocks, "\n\n"@),
        ]
    } else {
        Seq::empty()
    }) + seq![
        "The interviewer asks:\n"@ + request.question@,
        format_line(request.question@)
            + "TARGET LENGTH FOR THIS SPECIFIC QUESTION (the binding instruction — follow this number, not a habit of always answering the same length): "@
            + length_hint(lowercase(request.question@)).0
            + "\n(User's overall ceiling, only relevant if it would push you shorter than the target above: "@
            + length_instruction_text(request.answer_length@) + ")\n\n"@
            + style_instruction_text(request.response_style@) + " "@
            + english_level_instruction_text(request.english_level@) + " "@
            + humanization_instruction_text(request.humanization@)
            + "\n\nReply with the answer only, using that exact format and hitting that target length — two answers to different questions should read as clearly different lengths, not the same length every time."@,
    ]
}

/// The message with the question: background, question and instructions.
pub fn build_user_prompt(request: &AskRequest) -> (r: String)
    ensures
        r@ == joined(prompt_parts(*request), "\n\n---\n\n"@),
{
    let mut parts: Vec<String> = Vec::new();
    let blocks: Vec<String> = context_blocks(request);
    if blocks.len() > 0 {
        let mut part: String = "SUPPORTING BACKGROUND (optional — use only what is relevant to the question below; it is not a limit on what you can answer, and it must never be mentioned or referred to as a source):\n\n".to_owned();
        let all: String = join(&blocks, "\n\n");
        part.append(all.as_str());
        parts.push(part);
    }
    let mut ask: String = "The interviewer asks:\n".to_owned();
    ask.append(request.question.as_str());
    parts.push(ask);
    let mut tail: String = match classify_format(request.question.as_str()) {
        Some(hint) => {
            let mut line: String = hint.to_owned();
            line.append("\n\n");
            line
        },
        None => "Pick the matching FORMAT from the system prompt above.\n\n".to_owned(),
    };
    tail.append("TARGET LENGTH FOR THIS SPECIFIC QUESTION (the binding instruction — follow this number, not a habit of always answering the same length): ");
    let (hint, _budget) = classify_length(request.question.as_str());
    tail.append(hint);
    tail.append("\n(User's overall ceiling, only relevant if it would push you shorter than the target above: ");
    tail.append(length_instruction(request.answer_length.as_str()));
    tail.append(")\n\n");
    tail.append(style_instruction(request.response_style.as_str()));
    tail.append(" ");
    tail.append(english_level_instruction(request.english_level.as_str()));
    tail.append(" ");
    tail.append(humanization_instruction(request.humanization.as_str()));
    tail.append("\n\nReply with the answer only, using that exact format and hitting that target length — two answers to different questions should read as clearly different lengths, not the same length every time.");
    parts.push(tail);
    proof {
        assert(views(parts@) =~= prompt_parts(*request));
    }
    join(&parts, "\n\n---\n\n")
}

/// The messages for a question: who speaks, the conversation so far, and the
/// question.
pub open spec fn messages_for(request: AskRequest) -> Seq<ChatView> {
    (seq![system_message(SYSTEM_PROMPT@)] + replayed(
        exchange_views(request.conversation_history@),
    )).push(user_message(joined(prompt_parts(request), "\n\n---\n\n"@)))
}

/// The messages for a question.
pub fn build_messages(request: &AskRequest) -> (r: Vec<ChatMessage>)
    ensures
        chat_views(r@) == messages_for(*request),
{
    let mut messages: Vec<ChatMessage> = Vec::new();
    push_message(&mut messages, ChatMessage::system(SYSTEM_PROMPT.to_owned()));
    proof {
        assert(chat_views(messages@) =~= seq![system_message(SYSTEM_PROMPT@)]);
    }
    push_history(&mut messages, &request.conversation_history);
    push_message(&mut messages, ChatMessage::user(build_user_prompt(request)));
    messages
}

/// The budget of tokens for a question: what its wording asks for, and no more
/// than 120 where the user wants it brief.
pub open spec fn token_budget(question: Seq<char>, answer_length: Seq<char>) -> u32 {
    let asked = length_hint(lowercase(question)).1;
    if answer_length == "brief"@ {
        at_most(asked, 120)
    } else {
        asked
    }
}

/// The budget of tokens for a question.
pub fn max_tokens_for_question(request: &AskRequest) -> (r: u32)
    ensures
        r == token_budget(request.question@, request.answer_length@),
{
    let (_text, asked) = classify_length(request.question.as_str());
    if same(request.answer_length.as_str(), "brief") && asked > 120 {
        120
    } else {
        asked
    }
}

/// Wanting it brief never makes the budget of a question larger.
pub proof fn brief_never_inflates(question: Seq<char>, answer_length: Seq<char>)
    ensures
        token_budget(question, "brief"@) <= token_budget(question, answer_length),
        token_budget(question, "brief"@) <= 120,
        token_budget(question, answer_length) <= tier_tokens(Tier::VeryLong),
{
}

/// The wordings that decide are known: a text with one of them has one of its
/// kind, and there are no others.
pub proof fn the_wordings_are_known(text: Seq<char>)
    ensures
        how_process_markers().len() == 5,
        contains(text, "how did you build"@)
            || contains(text, "how does"@)
            || contains(text, "how do you"@)
            || contains(text, "how did you implement"@)
            || contains(text, "how did you create"@) ==> any_in(text, how_process_markers()),
        architecture_markers().len() == 6,
        contains(text, "architecture"@)
            || contains(text, "system design"@)
            || contains(text, "design of the system"@)
            || contains(text, "step by step"@)
            || contains(text, "step-by-step"@)
            || contains(text, "pipeline"@) ==> any_in(text, architecture_markers()),
        very_long_scope_words().len() == 4,
        contains(text, "complete"@)
            || contains(text, "entire"@)
            || contains(text, "whole"@)
            || contains(text, "full"@) ==> any_in(text, very_long_scope_words()),
        very_long_topic_words().len() == 7,
        contains(text, "architecture"@)
            || contains(text, "implementation"@)
            || contains(text, "system"@)
            || contains(text, "pipeline"@)
            || contains(text, "design"@)
            || contains(text, "flow"@)
            || contains(text, "workflow"@) ==> any_in(text, very_long_topic_words()),
        very_long_phrases().len() == 6,
        contains(text, "from start to finish"@)
            || contains(text, "beginning to end"@)
            || contains(text, "in full detail"@)
            || contains(text, "in complete detail"@)
            || contains(text, "end to end"@)
            || contains(text, "end-to-end"@) ==> any_in(text, very_long_phrases()),
        why_comparison_markers().len() == 9,
        contains(text, "why did you"@)
            || contains(text, "why do you"@)
            || contains(text, "why does"@)
            || contains(text, "why is"@)
            || contains(text, "compare"@)
            || contains(text, "versus"@)
            || contains(text, " vs "@)
            || contains(text, "instead of"@)
            || contains(text, "rather than"@) ==> any_in(text, why_comparison_markers()),
        project_markers().len() == 5,
        contains(text, "tell me about a project"@)
            || contains(text, "tell me about your project"@)
            || contains(text, "walk me through your project"@)
            || contains(text, "tell me about a time"@)
            || contains(text, "describe a project"@) ==> any_in(text, project_markers()),
        enumeration_words().len() == 9,
        has_word(text, "types"@)
            || has_word(text, "type"@)
            || has_word(text, "kinds"@)
            || has_word(text, "kind"@)
            || has_word(text, "categories"@)
            || has_word(text, "category"@)
            || has_word(text, "methods"@)
            || has_word(text, "approaches"@)
            || has_word(text, "techniques"@) ==> any_word(text, enumeration_words()),
        definition_openers().len() == 7,
        starts_with(text, "what is"@)
            || starts_with(text, "what are"@)
            || starts_with(text, "what's"@)
            || starts_with(text, "define"@)
            || starts_with(text, "have you used"@)
            || starts_with(text, "have you worked with"@)
            || starts_with(text, "do you know"@) ==> any_opens(text, definition_openers()),
        narrow_followup_markers().len() == 9,
        contains(text, "what did you use for"@)
            || contains(text, "what about the"@)
            || contains(text, "what about"@)
            || contains(text, "and what about"@)
            || contains(text, "explain the first step"@)
            || contains(text, "explain that step"@)
            || contains(text, "just that step"@)
            || contains(text, "only the first"@)
            || contains(text, "just the first"@) ==> any_in(text, narrow_followup_markers()),
        direct_experience_markers().len() == 5,
        starts_with(text, "have you worked"@)
            || starts_with(text, "have you used"@)
            || starts_with(text, "have you built"@)
            || starts_with(text, "do you have experience"@)
            || starts_with(text, "are you familiar with"@) ==> any_opens(text, direct_experience_markers()),
        example_scope_markers().len() == 5,
        contains(text, "give me an example"@)
            || contains(text, "just the example"@)
            || contains(text, "just give the example"@)
            || contains(text, "can you be more specific"@)
            || contains(text, "just that part"@) ==> any_in(text, example_scope_markers()),
{
    assert(how_process_markers()[0] == "how did you build"@);
    assert(how_process_markers()[1] == "how does"@);
    assert(how_process_markers()[2] == "how do you"@);
    assert(how_process_markers()[3] == "how did you implement"@);
    assert(how_process_markers()[4] == "how did you create"@);
    assert(architecture_markers()[0] == "architecture"@);
    assert(architecture_markers()[1] == "system design"@);
    assert(architecture_markers()[2] == "design of the system"@);
    assert(architecture_markers()[3] == "step by step"@);
    assert(architecture_markers()[4] == "step-by-step"@);
    assert(architecture_markers()[5] == "pipeline"@);
    assert(very_long_scope_words()[0] == "complete"@);
    assert(very_long_scope_words()[1] == "entire"@);
    assert(very_long_scope_words()[2] == "whole"@);
    assert(very_long_scope_words()[3] == "full"@);
    assert(very_long_topic_words()[0] == "architecture"@);
    assert(very_long_topic_words()[1] == "implementation"@);
    assert(very_long_topic_words()[2] == "system"@);
    assert(very_long_topic_words()[3] == "pipeline"@);
    assert(very_long_topic_words()[4] == "design"@);
    assert(very_long_topic_words()[5] == "flow"@);
    assert(very_long_topic_words()[6] == "workflow"@);
    assert(very_long_phrases()[0] == "from start to finish"@);
    assert(very_long_phrases()[1] == "beginning to end"@);
    assert(very_long_phrases()[2] == "in full detail"@);
    assert(very_long_phrases()[3] == "in complete detail"@);
    assert(very_long_phrases()[4] == "end to end"@);
    assert(very_long_phrases()[5] == "end-to-end"@);
    assert(why_comparison_markers()[0] == "why did you"@);
    assert(why_comparison_markers()[1] == "why do you"@);
    assert(why_comparison_markers()[2] == "why does"@);
    assert(why_comparison_markers()[3] == "why is"@);
    assert(why_comparison_markers()[4] == "compare"@);
    assert(why_comparison_markers()[5] == "versus"@);
    assert(why_comparison_markers()[6] == " vs "@);
    assert(why_comparison_markers()[7] == "instead of"@);
    assert(why_comparison_markers()[8] == "rather than"@);
    assert(project_markers()[0] == "tell me about a project"@);
    assert(project_markers()[1] == "tell me about your project"@);
    assert(project_markers()[2] == "walk me through your project"@);
    assert(project_markers()[3] == "tell me about a time"@);
    assert(project_markers()[4] == "describe a project"@);
    assert(enumeration_words()[0] == "types"@);
    assert(enumeration_words()[1] == "type"@);
    assert(enumeration_words()[2] == "kinds"@);
    assert(enumeration_words()[3] == "kind"@);
    assert(enumeration_words()[4] == "categories"@);
    assert(enumeration_words()[5] == "category"@);
    assert(enumeration_words()[6] == "methods"@);
    assert(enumeration_words()[7] == "approaches"@);
    assert(enumeration_words()[8] == "techniques"@);
    assert(definition_openers()[0] == "what is"@);
    assert(definition_openers()[1] == "what are"@);
    assert(definition_openers()[2] == "what's"@);
    assert(definition_openers()[3] == "define"@);
    assert(definition_openers()[4] == "have you used"@);
    assert(definition_openers()[5] == "have you worked with"@);
    assert(definition_openers()[6] == "do you know"@);
    assert(narrow_followup_markers()[0] == "what did you use for"@);
    assert(narrow_followup_markers()[1] == "what about the"@);
    assert(narrow_followup_markers()[2] == "what about"@);
    assert(narrow_followup_markers()[3] == "and what about"@);
    assert(narrow_followup_markers()[4] == "explain the first step"@);
    assert(narrow_followup_markers()[5] == "explain that step"@);
    assert(narrow_followup_markers()[6] == "just that step"@);
    assert(narrow_followup_markers()[7] == "only the first"@);
    assert(narrow_followup_markers()[8] == "just the first"@);
    assert(direct_experience_markers()[0] == "have you worked"@);
    assert(direct_experience_markers()[1] == "have you used"@);
    assert(direct_experience_markers()[2] == "have you built"@);
    assert(direct_experience_markers()[3] == "do you have experience"@);
    assert(direct_experience_markers()[4] == "are you familiar with"@);
    assert(example_scope_markers()[0] == "give me an example"@);
    assert(example_scope_markers()[1] == "just the example"@);
    assert(example_scope_markers()[2] == "just give the example"@);
    assert(example_scope_markers()[3] == "can you be more specific"@);
    assert(example_scope_markers()[4] == "just that part"@);
}

/// A question is asked with all that is known: the conversation so far stands
/// before it, in order, and with it stand the question, every passage, what is
/// known of the user, and what the user wishes of the answer.
pub proof fn a_question_is_asked_with_all_that_is_known(request: AskRequest, i: int)
    ensures
        ({
            let sent = messages_for(request);
            let history = request.conversation_history@;
            let asked = sent.last().content;
            &&& sent.len() == 2 * history.len() + 2
            &&& sent[0].role == "system"@
            &&& 0 <= i < history.len() ==> sent[2 * i + 1].role == "user"@ && sent[2 * i
                + 1].content == history[i].question@
            &&& 0 <= i < history.len() ==> sent[2 * i + 2].role == "assistant"@ && sent[2 * i
                + 2].content == history[i].answer@
            &&& sent.last().role == "user"@
            &&& stands_in(asked, request.question@)
            &&& 0 <= i < request.retrieved_context@.len() ==> stands_in(
                asked,
                request.retrieved_context@[i].text@,
            )
            &&& request.role matches Some(t) ==> stands_in(asked, t@)
            &&& request.job_description matches Some(t) ==> stands_in(asked, t@)
            &&& request.candidate_context matches Some(t) ==> stands_in(asked, t@)
            &&& stands_in(asked, length_hint(lowercase(request.question@)).0)
            &&& stands_in(asked, length_instruction_text(request.answer_length@))
            &&& stands_in(asked, style_instruction_text(request.response_style@))
            &&& stands_in(asked, english_level_instruction_text(request.english_level@))
            &&& stands_in(asked, humanization_instruction_text(request.humanization@))
        }),
{
    let history = exchange_views(request.conversation_history@);
    let sent = messages_for(request);
    let told = replayed(history);
    replayed_length(history);
    if 0 <= i < history.len() {
        history_is_replayed_in_order(history, i);
        assert(sent[2 * i + 1] == told[2 * i]);
        assert(sent[2 * i + 2] == told[2 * i + 1]);
    }
    let parts = prompt_parts(request);
    let sep = "\n\n---\n\n"@;
    let asked = joined(parts, sep);
    let blocks = background_blocks(request);
    let at = parts.len() - 2;
    part_stands_in_joined(parts, sep, at);
    part_stands_in_joined(parts, sep, at + 1);
    the_middle_stands_in("The interviewer asks:\n"@, request.question@, Seq::empty());
    assert(parts[at] == "The interviewer asks:\n"@ + request.question@);
    standing_in_passes_on(asked, parts[at], request.question@);
    let wishes = parts[at + 1];
    {
        let before = format_line(request.question@) + "TARGET LENGTH FOR THIS SPECIFIC QUESTION (the binding instruction — follow this number, not a habit of always answering the same length): "@;
        let after = "\n(User's overall ceiling, only relevant if it would push you shorter than the target above: "@ + length_instruction_text(request.answer_length@) + ")\n\n"@ + style_instruction_text(request.response_style@) + " "@ + english_level_instruction_text(request.english_level@) + " "@ + humanization_instruction_text(request.humanization@) + "\n\nReply with the answer only, using that exact format and hitting that target length — two answers to different questions should read as clearly different lengths, not the same length every time."@;
        the_middle_stands_in(before, length_hint(lowercase(request.question@)).0, after);
        assert(wishes =~= before + length_hint(lowercase(request.question@)).0 + after);
        standing_in_passes_on(asked, wishes, length_hint(lowercase(request.question@)).0);
    }
    {
        let before = format_line(request.question@) + "TARGET LENGTH FOR THIS SPECIFIC QUESTION (the binding instruction — follow this number, not a habit of always answering the same length): "@ + length_hint(lowercase(request.question@)).0 + "\n(User's overall ceiling, only relevant if it would push you shorter than the target above: "@;
        let after = ")\n\n"@ + style_instruction_text(request.response_style@) + " "@ + english_level_instruction_text(request.english_level@) + " "@ + humanization_instruction_text(request.humanization@) + "\n\nReply with the answer only, using that exact format and hitting that target length — two answers to different questions should read as clearly different lengths, not the same length every time."@;
        the_middle_stands_in(before, length_instruction_text(request.answer_length@), after);
        assert(wishes =~= before + length_instruction_text(request.answer_length@) + after);
        standing_in_passes_on(asked, wishes, length_instruction_text(request.answer_length@));
    }
    {
        let before = format_line(request.question@) + "TARGET LENGTH FOR THIS SPECIFIC QUESTION (the binding instruction — follow this number, not a habit of always answering the same length): "@ + length_hint(lowercase(request.question@)).0 + "\n(User's overall ceiling, only relevant if it would push you shorter than the target above: "@ + length_instruction_text(request.answer_length@) + ")\n\n"@;
        let after = " "@ + english_level_instruction_text(request.english_level@) + " "@ + humanization_instruction_text(request.humanization@) + "\n\nReply with the answer only, using that exact format and hitting that target length — two answers to different questions should read as clearly different lengths, not the same length every time."@;
        the_middle_stands_in(before, style_instruction_text(request.response_style@), after);
        assert(wishes =~= before + style_instruction_text(request.response_style@) + after);
        standing_in_passes_on(asked, wishes, style_instruction_text(request.response_style@));
    }
    {
        let before = format_line(request.question@) + "TARGET LENGTH FOR THIS SPECIFIC QUESTION (the binding instruction — follow this number, not a habit of always answering the same length): "@ + length_hint(lowercase(request.question@)).0 + "\n(User's overall ceiling, only relevant if it would push you shorter than the target above: "@ + length_instruction_text(request.answer_length@) + ")\n\n"@ + style_instruction_text(request.response_style@) + " "@;
        let after = " "@ + humanization_instruction_text(request.humanization@) + "\n\nReply with the answer only, using that exact format and hitting that target length — two answers to different questions should read as clearly different lengths, not the same length every time."@;
        the_middle_stands_in(before, english_level_instruction_text(request.english_level@), after);
        assert(wishes =~= before + english_level_instruction_text(request.english_level@) + after);
        standing_in_passes_on(asked, wishes, english_level_instruction_text(request.english_level@));
    }
    {
        let before = format_line(request.question@) + "TARGET LENGTH FOR THIS SPECIFIC QUESTION (the binding instruction — follow this number, not a habit of always answering the same length): "@ + length_hint(lowercase(request.question@)).0 + "\n(User's overall ceiling, only relevant if it would push you shorter than the target above: "@ + length_instruction_text(request.answer_length@) + ")\n\n"@ + style_instruction_text(request.response_style@) + " "@ + english_level_instruction_text(request.english_level@) + " "@;
        let after = "\n\nReply with the answer only, using that exact format and hitting that target length — two answers to different questions should read as clearly different lengths, not the same length every time."@;
        the_middle_stands_in(before, humanization_instruction_text(request.humanization@), after);
        assert(wishes =~= before + humanization_instruction_text(request.humanization@) + after);
        standing_in_passes_on(asked, wishes, humanization_instruction_text(request.humanization@));
    }
    if blocks.len() > 0 {
        let head = "SUPPORTING BACKGROUND (optional — use only what is relevant to the question below; it is not a limit on what you can answer, and it must never be mentioned or referred to as a source):\n\n"@;
        let known = joined(blocks, "\n\n"@);
        part_stands_in_joined(parts, sep, 0);
        assert(parts[0] == head + known);
        the_middle_stands_in(head, known, Seq::empty());
        standing_in_passes_on(asked, parts[0], known);
        if request.role is Some {
            let t = request.role->Some_0@;
            let k = 0int;
            assert(blocks[k] == "Role being interviewed for: "@ + t);
            part_stands_in_joined(blocks, "\n\n"@, k);
            standing_in_passes_on(asked, known, blocks[k]);
            the_middle_stands_in("Role being interviewed for: "@, t, Seq::empty());
            standing_in_passes_on(asked, blocks[k], t);
        }
        if request.job_description is Some {
            let t = request.job_description->Some_0@;
            let k = (if request.role is Some { 1int } else { 0int });
            assert(blocks[k] == "Job context:\n"@ + t);
            part_stands_in_joined(blocks, "\n\n"@, k);
            standing_in_passes_on(asked, known, blocks[k]);
            the_middle_stands_in("Job context:\n"@, t, Seq::empty());
            standing_in_passes_on(asked, blocks[k], t);
        }
        if request.candidate_context is Some {
            let t = request.candidate_context->Some_0@;
            let k = (if request.role is Some { 1int } else { 0int }) + (if request.job_description is Some { 1int } else { 0int });
            assert(blocks[k] == "About the candidate:\n"@ + t);
            part_stands_in_joined(blocks, "\n\n"@, k);
            standing_in_passes_on(asked, known, blocks[k]);
            the_middle_stands_in("About the candidate:\n"@, t, Seq::empty());
            standing_in_passes_on(asked, blocks[k], t);
        }
        if 0 <= i < request.retrieved_context@.len() {
            let texts = passage_texts(request.retrieved_context@);
            let found = joined(texts, "\n\n"@);
            let k = blocks.len() - 1;
            assert(blocks[k] == "The candidate's own background notes:\n"@ + found);
            part_stands_in_joined(blocks, "\n\n"@, k);
            standing_in_passes_on(asked, known, blocks[k]);
            the_middle_stands_in("The candidate's own background notes:\n"@, found, Seq::empty());
            standing_in_passes_on(asked, blocks[k], found);
            part_stands_in_joined(texts, "\n\n"@, i);
            standing_in_passes_on(asked, found, texts[i]);
        }
    }
}

/// What asks for more is given more room, and what asks for one thing only the
/// least.
pub proof fn what_asks_for_more_is_given_more()
    ensures
        tier_tokens(Tier::Example) < tier_tokens(Tier::DirectExperience),
        tier_tokens(Tier::DirectExperience) == tier_tokens(Tier::Short),
        tier_tokens(Tier::Short) < tier_tokens(Tier::NarrowFollowup),
        tier_tokens(Tier::NarrowFollowup) < tier_tokens(Tier::Medium),
        tier_tokens(Tier::Medium) < tier_tokens(Tier::Long),
        tier_tokens(Tier::Long) < tier_tokens(Tier::VeryLong),
{
}

/// A question that narrows down is answered narrowly, whatever else it says; and
/// of two questions of which one opens as a definition, or asks about
/// experience, and neither narrows down nor counts up, that one gets the least
/// room.
pub proof fn a_narrow_question_is_answered_narrowly(lowered: Seq<char>, other: Seq<char>)
    ensures
        any_in(lowered, narrow_followup_markers()) ==> length_hint(lowered).1 == 95,
        any_in(lowered, example_scope_markers()) ==> length_hint(lowered).1 <= 95,
        any_in(lowered, narrow_followup_markers()) || any_in(lowered, example_scope_markers())
            ==> format_hint(lowered) is Some,
        any_opens(lowered, definition_openers()) && !any_word(lowered, enumeration_words())
            ==> length_hint(lowered).1 <= 95,
        any_opens(lowered, direct_experience_markers()) ==> length_hint(lowered).1 <= 95,
        any_word(lowered, enumeration_words()) && !any_in(lowered, narrow_followup_markers())
            && !any_in(lowered, example_scope_markers()) && !any_opens(
            lowered,
            direct_experience_markers(),
        ) ==> length_hint(lowered).1 == 360,
        !any_in(lowered, narrow_followup_markers()) && !any_in(lowered, example_scope_markers())
            && !any_opens(lowered, direct_experience_markers()) && !any_word(
            lowered,
            enumeration_words(),
        ) && !any_opens(lowered, definition_openers()) ==> length_hint(lowered).1 >= 145,
        length_hint(lowered).1 == 540 ==> any_in(lowered, very_long_phrases()) || (any_in(
            lowered,
            very_long_scope_words(),
        ) && any_in(lowered, very_long_topic_words())),
{
}

} // verus!
