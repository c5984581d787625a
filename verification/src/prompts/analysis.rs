//! The analysis of a completed interview: question by question, and then as a
//! whole.
use vstd::prelude::*;
use vstd::string::*;

use crate::backend::{
    analysis_views, source_views, InterviewAnalysisRequest, OverallInterviewAnalysis, OverallView,
    QuestionAnalysis, QuestionAnalysisView, RetrievedSourceRef, SourceView, WireQuestionAnswer,
    WireRetrievedChunk,
};
use crate::json::{opt_view, Json, JsonNumberView, JsonView};
use crate::prompts::ask::headed;
use crate::prompts::chat::{chat_views, ChatMessage};
use crate::prompts::meeting::or_else;
use crate::prompts::notes::{object_in, read_object, scene_and_message, two_messages};
use crate::text::{
    decimal, decimal_text, ends_with, join, joined, part_stands_in_joined, signed_decimal,
    signed_text, stands_in, starts_with, views,
};

verus! {

pub const SYSTEM_INSTRUCTIONS: &'static str = "You are an expert technical interviewer and interview coach.

Analyze the candidate's completed interview using only the candidate context and retrieved knowledge provided.

Do not invent experience.

Do not attribute technologies, projects, employers, responsibilities, or achievements to the candidate unless supported by the supplied context.

Distinguish between:
- What the candidate actually said
- What is supported by their documents
- What is missing
- What could be improved

Evaluate answers based on technical correctness, practical depth, clarity, structure, relevance, and communication.

When suggesting an improved answer, preserve the candidate's actual experience and do not fabricate accomplishments.

If information needed to verify a claim is missing from the supplied context, say so explicitly using the phrase \"Not established from the supplied candidate context.\" Do not guess.

If the candidate's answer contradicts the supplied candidate context (for example, claiming a technology or deployment method not found in their resume or project documents), flag this directly in your assessment rather than silently accepting or silently correcting it.

You must respond with valid JSON only, matching exactly the schema described in the user message. Do not include any text outside the JSON object.";

pub const RUBRIC: &'static str = "Score each dimension from 0-100 using this rubric:

Technical Knowledge (0-100): depth and correctness of technical explanation.
Communication (0-100): clarity, structure, and how well the answer would land in a real interview.
Practical Experience (0-100): concrete, specific, hands-on detail vs. generic/theoretical answers.
Clarity (0-100): how easy the answer is to follow.
Confidence (0-100): how directly and assuredly the candidate answered.

You must briefly explain the reasoning behind any score above 85 or below 40 in the relevant text field (assessment, or summary for overall scores). Avoid arbitrary scoring — every score should be traceable to something specific in the answer or context.";

pub const DEFAULT_DISCLAIMER: &'static str = "These scores and this feedback are AI-generated estimates based only on the transcript and documents you provided. They are not an objective measurement of your skills or interview performance.";

/// The role, the company and the job, or that none is known.
pub open spec fn header_text(
    role: Option<Seq<char>>,
    company: Option<Seq<char>>,
    job_description: Option<Seq<char>>,
) -> Seq<char> {
    let parts = headed("ROLE\n"@, role) + headed("COMPANY\n"@, company) + headed(
        "JOB DESCRIPTION\n"@,
        job_description,
    );
    if parts.len() == 0 {
        "(No role/company/job description provided.)"@
    } else {
        joined(parts, "\n\n"@)
    }
}

fn push_headed(blocks: &mut Vec<String>, heading: &str, content: &Option<String>)
    ensures
        views(final(blocks)@) == views(old(blocks)@) + headed(heading@, opt_view(*content)),
{
    match content {
        Some(c) => {
            let mut block: String = heading.to_owned();
            block.append(c.as_str());
            blocks.push(block);
        },
        None => {},
    }
    proof {
        assert(views(blocks@) =~= views(old(blocks)@) + headed(heading@, opt_view(*content)));
    }
}

fn context_header(
    role: &Option<String>,
    company: &Option<String>,
    job_description: &Option<String>,
) -> (r: String)
    ensures
        r@ == header_text(opt_view(*role), opt_view(*company), opt_view(*job_description)),
{
    let mut parts: Vec<String> = Vec::new();
    push_headed(&mut parts, "ROLE\n", role);
    push_headed(&mut parts, "COMPANY\n", company);
    push_headed(&mut parts, "JOB DESCRIPTION\n", job_description);
    proof {
        assert(views(parts@) =~= headed("ROLE\n"@, opt_view(*role)) + headed(
            "COMPANY\n"@,
            opt_view(*company),
        ) + headed("JOB DESCRIPTION\n"@, opt_view(*job_description)));
    }
    if parts.len() == 0 {
        "(No role/company/job description provided.)".to_owned()
    } else {
        join(&parts, "\n\n")
    }
}

/// A passage with where it came from and how well it fits.
pub open spec fn shown_passage(chunk: WireRetrievedChunk) -> Seq<char> {
    "[Source: "@ + chunk.source_filename@ + " ("@ + chunk.document_type@ + "), relevance "@
        + chunk.score.shown@ + "]\n"@ + chunk.text@
}

/// What was found on a question.
pub open spec fn knowledge_text(qa: WireQuestionAnswer) -> Seq<char> {
    if qa.retrieved_context@.len() == 0 {
        "(No relevant context was retrieved from the candidate's documents for this question.)"@
    } else {
        joined(
            qa.retrieved_context@.map_values(|c: WireRetrievedChunk| shown_passage(c)),
            "\n\n"@,
        )
    }
}

fn format_retrieved_context(qa: &WireQuestionAnswer) -> (r: String)
    ensures
        r@ == knowledge_text(*qa),
{
    if qa.retrieved_context.len() == 0 {
        return "(No relevant context was retrieved from the candidate's documents for this question.)".to_owned();
    }
    let mut shown: Vec<String> = Vec::new();
    let mut i: usize = 0;
    while i < qa.retrieved_context.len()
        invariant
            i <= qa.retrieved_context@.len(),
            shown@.len() == i,
            forall|j: int|
                0 <= j < i ==> (#[trigger] shown@[j])@ == shown_passage(qa.retrieved_context@[j]),
        decreases qa.retrieved_context@.len() - i,
    {
        let chunk: &WireRetrievedChunk = &qa.retrieved_context[i];
        let mut text: String = "[Source: ".to_owned();
        text.append(chunk.source_filename.as_str());
        text.append(" (");
        text.append(chunk.document_type.as_str());
        text.append("), relevance ");
        text.append(chunk.score.shown.as_str());
        text.append("]\n");
        text.append(chunk.text.as_str());
        shown.push(text);
        i += 1;
    }
    proof {
        assert(views(shown@) =~= qa.retrieved_context@.map_values(
            |c: WireRetrievedChunk| shown_passage(c),
        ));
    }
    join(&shown, "\n\n")
}

/// The message that asks for the analysis of a question.
pub open spec fn question_text(qa: WireQuestionAnswer, header: Seq<char>) -> Seq<char> {
    header + "\n\nRELEVANT RETRIEVED KNOWLEDGE\n"@ + knowledge_text(qa) + "\n\nINTERVIEW QUESTION\n"@ + qa.question@
        + "\n\nCANDIDATE ANSWER\n"@ + or_else(
        qa.candidate_answer@,
        "(No answer was captured for this question.)"@,
    ) + "\n\n"@ + RUBRIC@
        + "\n\nRespond with a single JSON object matching exactly this schema:\n{\n  \"assessment\": \"string — what the candidate actually said, evaluated against the rubric, referencing the retrieved knowledge where relevant\",\n  \"score\": 0,\n  \"strengths\": [\"string\", \"...\"],\n  \"issues\": [\"string\", \"...\"],\n  \"improved_answer\": \"string — first-person, conversational, interview-ready, grounded only in the retrieved knowledge and the candidate's actual answer; do not fabricate accomplishments\"\n}\n\nThe field \"question_id\" is not part of your response — it is added separately."@
}

/// The instructions and the message that ask for the analysis of a question.
pub fn build_question_prompt(
    qa: &WireQuestionAnswer,
    role: &Option<String>,
    company: &Option<String>,
    job_description: &Option<String>,
) -> (r: (String, String))
    ensures
        r.0@ == SYSTEM_INSTRUCTIONS@,
        r.1@ == question_text(
            *qa,
            header_text(opt_view(*role), opt_view(*company), opt_view(*job_description)),
        ),
{
    let mut text: String = context_header(role, company, job_description);
    text.append("\n\nRELEVANT RETRIEVED KNOWLEDGE\n");
    let knowledge: String = format_retrieved_context(qa);
    text.append(knowledge.as_str());
    text.append("\n\nINTERVIEW QUESTION\n");
    text.append(qa.question.as_str());
    text.append("\n\nCANDIDATE ANSWER\n");
    if qa.candidate_answer.as_str().is_empty() {
        text.append("(No answer was captured for this question.)");
    } else {
        text.append(qa.candidate_answer.as_str());
    }
    text.append("\n\n");
    text.append(RUBRIC);
    text.append("\n\nRespond with a single JSON object matching exactly this schema:\n{\n  \"assessment\": \"string — what the candidate actually said, evaluated against the rubric, referencing the retrieved knowledge where relevant\",\n  \"score\": 0,\n  \"strengths\": [\"string\", \"...\"],\n  \"issues\": [\"string\", \"...\"],\n  \"improved_answer\": \"string — first-person, conversational, interview-ready, grounded only in the retrieved knowledge and the candidate's actual answer; do not fabricate accomplishments\"\n}\n\nThe field \"question_id\" is not part of your response — it is added separately.");
    (SYSTEM_INSTRUCTIONS.to_owned(), text)
}

/// Items in one line, or that there are none.
pub open spec fn in_one_line(items: Seq<Seq<char>>) -> Seq<char> {
    if items.len() == 0 {
        "(none noted)"@
    } else {
        joined(items, ", "@)
    }
}

fn one_line(items: &Vec<String>) -> (r: String)
    ensures
        r@ == in_one_line(views(items@)),
{
    if items.len() == 0 {
        "(none noted)".to_owned()
    } else {
        join(items, ", ")
    }
}

/// One question's analysis, under its number.
pub open spec fn question_block(number: nat, qa: QuestionAnalysisView) -> Seq<char> {
    "Q"@ + decimal(number) + ": "@ + qa.question + "\nScore: "@ + signed_decimal(qa.score as int)
        + "\nAssessment: "@ + qa.assessment + "\nStrengths: "@ + in_one_line(qa.strengths)
        + "\nIssues: "@ + in_one_line(qa.issues)
}

/// The analyses that did not fail, numbered from one on.
pub open spec fn question_blocks(analyses: Seq<QuestionAnalysisView>) -> Seq<Seq<char>>
    decreases analyses.len(),
{
    if analyses.len() == 0 {
        Seq::empty()
    } else {
        let before = question_blocks(analyses.drop_last());
        if analyses.last().failed {
            before
        } else {
            before.push(question_block(before.len() + 1, analyses.last()))
        }
    }
}

/// The message that asks for the analysis of the whole.
pub open spec fn overall_text(analyses: Seq<QuestionAnalysisView>, header: Seq<char>) -> Seq<char> {
    header + "\n\nPER-QUESTION ANALYSIS RESULTS\n"@ + or_else(
        joined(question_blocks(analyses), "\n\n"@),
        "(No question-level analyses completed successfully.)"@,
    ) + "\n\n"@ + RUBRIC@
        + "\n\nBased on the per-question analyses above, produce an overall assessment of the candidate's interview performance. Respond with a single JSON object matching exactly this schema:\n{\n  \"overall_score\": 0,\n  \"technical_score\": 0,\n  \"communication_score\": 0,\n  \"practical_experience_score\": 0,\n  \"confidence_score\": 0,\n  \"summary\": \"string — 2-4 sentence overall summary\",\n  \"strengths\": [\"string\", \"...\"],\n  \"weaknesses\": [\"string\", \"...\"],\n  \"recommendations\": [\"string\", \"...\"]\n}"@
}

fn block_text(number: u64, qa: &QuestionAnalysis) -> (r: String)
    ensures
        r@ == question_block(number as nat, qa@),
{
    let mut text: String = "Q".to_owned();
    let n: String = decimal_text(number);
    text.append(n.as_str());
    text.append(": ");
    text.append(qa.question.as_str());
    text.append("\nScore: ");
    let score: String = signed_text(qa.score);
    text.append(score.as_str());
    text.append("\nAssessment: ");
    text.append(qa.assessment.as_str());
    text.append("\nStrengths: ");
    let strengths: String = one_line(&qa.strengths);
    text.append(strengths.as_str());
    text.append("\nIssues: ");
    let issues: String = one_line(&qa.issues);
    text.append(issues.as_str());
    text
}

/// The instructions and the message that ask for the analysis of the whole:
/// the analyses of the questions, without those that failed.
pub fn build_overall_prompt(
    question_analyses: &Vec<QuestionAnalysis>,
    role: &Option<String>,
    company: &Option<String>,
    job_description: &Option<String>,
) -> (r: (String, String))
    ensures
        r.0@ == SYSTEM_INSTRUCTIONS@,
        r.1@ == overall_text(
            analysis_views(question_analyses@),
            header_text(opt_view(*role), opt_view(*company), opt_view(*job_description)),
        ),
{
    let ghost all = analysis_views(question_analyses@);
    let mut blocks: Vec<String> = Vec::new();
    let mut i: usize = 0;
    proof {
        assert(all.take(0) =~= Seq::empty());
        assert(views(blocks@) =~= Seq::empty());
    }
    while i < question_analyses.len()
        invariant
            i <= question_analyses@.len(),
            all == analysis_views(question_analyses@),
            blocks@.len() <= i,
            views(blocks@) == question_blocks(all.take(i as int)),
        decreases question_analyses@.len() - i,
    {
        let ghost before = views(blocks@);
        proof {
            assert(all.take(i as int + 1).drop_last() =~= all.take(i as int));
            assert(all.take(i as int + 1).last() == question_analyses@[i as int]@);
        }
        if !question_analyses[i].failed {
            let block: String = block_text(blocks.len() as u64 + 1, &question_analyses[i]);
            blocks.push(block);
            proof {
                assert(views(blocks@) =~= before.push(block@));
            }
        }
        i += 1;
    }
    proof {
        assert(all.take(i as int) =~= all);
    }
    let mut text: String = context_header(role, company, job_description);
    text.append("\n\nPER-QUESTION ANALYSIS RESULTS\n");
    let joined_blocks: String = join(&blocks, "\n\n");
    if joined_blocks.as_str().is_empty() {
        text.append("(No question-level analyses completed successfully.)");
    } else {
        text.append(joined_blocks.as_str());
    }
    text.append("\n\n");
    text.append(RUBRIC);
    text.append("\n\nBased on the per-question analyses above, produce an overall assessment of the candidate's interview performance. Respond with a single JSON object matching exactly this schema:\n{\n  \"overall_score\": 0,\n  \"technical_score\": 0,\n  \"communication_score\": 0,\n  \"practical_experience_score\": 0,\n  \"confidence_score\": 0,\n  \"summary\": \"string — 2-4 sentence overall summary\",\n  \"strengths\": [\"string\", \"...\"],\n  \"weaknesses\": [\"string\", \"...\"],\n  \"recommendations\": [\"string\", \"...\"]\n}");
    (SYSTEM_INSTRUCTIONS.to_owned(), text)
}

/// The messages of a prompt.
pub fn question_messages(system_prompt: &str, user_prompt: &str) -> (r: Vec<ChatMessage>)
    ensures
        chat_views(r@) == scene_and_message(system_prompt@, user_prompt@),
{
    two_messages(system_prompt, user_prompt.to_owned())
}

/// Where the passages of a question came from.
pub open spec fn sources_of(qa: WireQuestionAnswer) -> Seq<SourceView> {
    qa.retrieved_context@.map_values(
        |c: WireRetrievedChunk|
            SourceView {
                filename: c.source_filename@,
                document_type: c.document_type@,
                score: c.score@,
                text: c.text@,
            },
    )
}

fn sources(qa: &WireQuestionAnswer) -> (r: Vec<RetrievedSourceRef>)
    ensures
        source_views(r@) == sources_of(*qa),
{
    let mut out: Vec<RetrievedSourceRef> = Vec::new();
    let mut i: usize = 0;
    while i < qa.retrieved_context.len()
        invariant
            i <= qa.retrieved_context@.len(),
            out@.len() == i,
            forall|j: int| 0 <= j < i ==> (#[trigger] out@[j])@ == sources_of(*qa)[j],
        decreases qa.retrieved_context@.len() - i,
    {
        let chunk: &WireRetrievedChunk = &qa.retrieved_context[i];
        out.push(
            RetrievedSourceRef {
                filename: chunk.source_filename.clone(),
                document_type: chunk.document_type.clone(),
                score: chunk.score.copy(),
                text: chunk.text.clone(),
            },
        );
        i += 1;
    }
    proof {
        assert(source_views(out@) =~= sources_of(*qa));
    }
    out
}

/// The lower 32 bits of a number, as a number with a sign.
pub open spec fn low_i32(n: i64) -> i32 {
    let m = (n as int) % 0x1_0000_0000;
    if m < 0x8000_0000 {
        m as i32
    } else {
        (m - 0x1_0000_0000) as i32
    }
}

fn truncate_i32(n: i64) -> (r: i32)
    ensures
        r == low_i32(n),
{
    let wide: i128 = n as i128;
    let shifted: u128 = (wide + 0x1_0000_0000_0000_0000_0000) as u128;
    let m: u128 = shifted % 0x1_0000_0000;
    proof {
        assert(shifted as int == n as int + 0x1_0000_0000_0000_0000_0000int);
        assert((n as int + 0x1_0000_0000_0000_0000_0000int) % 0x1_0000_0000 == (n as int)
            % 0x1_0000_0000) by (nonlinear_arith);
    }
    if m < 0x8000_0000 {
        m as i32
    } else {
        (m as i64 - 0x1_0000_0000) as i32
    }
}

/// The analysis of a question that failed, for the given reason.
pub open spec fn failed_analysis(
    qa: WireQuestionAnswer,
    sources: Seq<SourceView>,
    error: Seq<char>,
) -> QuestionAnalysisView {
    QuestionAnalysisView {
        question_id: qa.question_id@,
        question: qa.question@,
        candidate_answer: qa.candidate_answer@,
        assessment: Seq::empty(),
        score: 0,
        strengths: Seq::empty(),
        issues: Seq::empty(),
        improved_answer: Seq::empty(),
        retrieved_sources: sources,
        failed: true,
        error_message: Some(error),
    }
}

/// The analysis that a JSON object holds: it needs an assessment and a score.
pub open spec fn analysis_in(object: JsonView, qa: WireQuestionAnswer) -> QuestionAnalysisView {
    match (object.str_field("assessment"@), object.i64_field("score"@)) {
        (Some(assessment), Some(score)) => QuestionAnalysisView {
            question_id: qa.question_id@,
            question: qa.question@,
            candidate_answer: qa.candidate_answer@,
            assessment,
            score: low_i32(score),
            strengths: object.texts_field("strengths"@),
            issues: object.texts_field("issues"@),
            improved_answer: object.text_or_empty("improved_answer"@),
            retrieved_sources: sources_of(qa),
            failed: false,
            error_message: None,
        },
        _ => failed_analysis(
            qa,
            sources_of(qa),
            "response JSON was missing required fields (assessment/score)"@,
        ),
    }
}

fn failed_question_analysis(
    qa: &WireQuestionAnswer,
    retrieved_sources: Vec<RetrievedSourceRef>,
    error_message: String,
) -> (r: QuestionAnalysis)
    ensures
        r@ == failed_analysis(*qa, source_views(retrieved_sources@), error_message@),
{
    let r = QuestionAnalysis {
        question_id: qa.question_id.clone(),
        question: qa.question.clone(),
        candidate_answer: qa.candidate_answer.clone(),
        assessment: String::new(),
        score: 0,
        strengths: Vec::new(),
        issues: Vec::new(),
        improved_answer: String::new(),
        retrieved_sources,
        failed: true,
        error_message: Some(error_message),
    };
    proof {
        assert(r@.strengths =~= Seq::empty());
        assert(r@.issues =~= Seq::empty());
    }
    r
}

/// Reads the analysis that a JSON object holds.
pub fn read_question_analysis(object: &Json, qa: &WireQuestionAnswer) -> (r: QuestionAnalysis)
    ensures
        r@ == analysis_in(object@, *qa),
{
    match (object.str_field("assessment"), object.i64_field("score")) {
        (Some(assessment), Some(score)) => QuestionAnalysis {
            question_id: qa.question_id.clone(),
            question: qa.question.clone(),
            candidate_answer: qa.candidate_answer.clone(),
            assessment,
            score: truncate_i32(score),
            strengths: object.texts_field("strengths"),
            issues: object.texts_field("issues"),
            improved_answer: object.text_or_empty("improved_answer"),
            retrieved_sources: sources(qa),
            failed: false,
            error_message: None,
        },
        _ => failed_question_analysis(
            qa,
            sources(qa),
            "response JSON was missing required fields (assessment/score)".to_owned(),
        ),
    }
}

/// Reads the analysis of a question in a model's answer. One that cannot be
/// read has failed; where its passages came from is kept.
pub fn parse_question_analysis(raw: &str, qa: &WireQuestionAnswer) -> (r: QuestionAnalysis)
    ensures
        r@ == (match object_in(raw@) {
            Ok(object) => analysis_in(object, *qa),
            Err(e) => failed_analysis(*qa, sources_of(*qa), e),
        }),
{
    match read_object(raw) {
        Ok(object) => read_question_analysis(&object, qa),
        Err(e) => failed_question_analysis(qa, sources(qa), e),
    }
}

/// The analysis of a question on which the model could not be reached.
pub fn provider_failure_question_analysis(qa: &WireQuestionAnswer, error_message: &str) -> (r:
    QuestionAnalysis)
    ensures
        r@ == failed_analysis(*qa, Seq::empty(), "LLM request failed: "@ + error_message@),
{
    let mut message: String = "LLM request failed: ".to_owned();
    message.append(error_message);
    let none: Vec<RetrievedSourceRef> = Vec::new();
    proof {
        assert(source_views(none@) =~= Seq::empty());
    }
    failed_question_analysis(qa, none, message)
}

/// An analysis that did not get beyond its questions: the same score in every
/// dimension, and no text of its own.
pub open spec fn bare_overall(
    session_id: Seq<char>,
    status: Seq<char>,
    score: i32,
    summary: Seq<char>,
    questions: Seq<QuestionAnalysisView>,
    message: Seq<char>,
) -> OverallView {
    OverallView {
        session_id,
        status,
        overall_score: score,
        technical_score: score,
        communication_score: score,
        practical_experience_score: score,
        confidence_score: score,
        summary,
        strengths: Seq::empty(),
        weaknesses: Seq::empty(),
        recommendations: Seq::empty(),
        questions,
        disclaimer: DEFAULT_DISCLAIMER@,
        message,
    }
}

fn bare_result(
    session_id: &str,
    status: &str,
    score: i32,
    summary: &str,
    questions: Vec<QuestionAnalysis>,
    message: String,
) -> (r: OverallInterviewAnalysis)
    ensures
        r@ == bare_overall(
            session_id@,
            status@,
            score,
            summary@,
            analysis_views(questions@),
            message@,
        ),
{
    let r = OverallInterviewAnalysis {
        session_id: session_id.to_owned(),
        status: status.to_owned(),
        overall_score: score,
        technical_score: score,
        communication_score: score,
        practical_experience_score: score,
        confidence_score: score,
        summary: summary.to_owned(),
        strengths: Vec::new(),
        weaknesses: Vec::new(),
        recommendations: Vec::new(),
        questions,
        disclaimer: DEFAULT_DISCLAIMER.to_owned(),
        message,
    };
    proof {
        let empty = Seq::<Seq<char>>::empty();
        assert(r@.strengths =~= empty);
        assert(r@.weaknesses =~= empty);
        assert(r@.recommendations =~= empty);
    }
    r
}

/// The result for an interview without questions.
pub fn finalize_empty(session_id: &str) -> (r: OverallInterviewAnalysis)
    ensures
        r@ == bare_overall(
            session_id@,
            "completed"@,
            0,
            "No interview questions were identified in the transcript, so no analysis could be generated."@,
            Seq::empty(),
            "No question/answer pairs were extracted from the transcript."@,
        ),
{
    let none: Vec<QuestionAnalysis> = Vec::new();
    proof {
        assert(analysis_views(none@) =~= Seq::empty());
    }
    bare_result(
        session_id,
        "completed",
        0,
        "No interview questions were identified in the transcript, so no analysis could be generated.",
        none,
        "No question/answer pairs were extracted from the transcript.".to_owned(),
    )
}

/// One of the analyses failed.
pub open spec fn any_failed(analyses: Seq<QuestionAnalysisView>) -> bool {
    exists|i: int| 0 <= i < analyses.len() && (#[trigger] analyses[i]).failed
}

fn has_failed(analyses: &Vec<QuestionAnalysis>) -> (r: bool)
    ensures
        r == any_failed(analysis_views(analyses@)),
{
    let mut i: usize = 0;
    while i < analyses.len()
        invariant
            i <= analyses@.len(),
            forall|j: int| 0 <= j < i ==> !(#[trigger] analyses@[j]).failed,
        decreases analyses@.len() - i,
    {
        if analyses[i].failed {
            proof {
                assert(analysis_views(analyses@)[i as int].failed);
            }
            return true;
        }
        i += 1;
    }
    proof {
        assert forall|j: int| 0 <= j < analysis_views(analyses@).len() implies !(
        #[trigger] analysis_views(analyses@)[j]).failed by {
            assert(!analyses@[j].failed);
        }
    }
    false
}

/// A score in a field, which has to be there.
pub open spec fn required_score(object: JsonView, key: Seq<char>) -> Result<i32, Seq<char>> {
    match object.i64_field(key) {
        Some(n) => Ok(low_i32(n)),
        None => Err("missing or invalid field: "@ + key),
    }
}

fn read_score(object: &Json, key: &str) -> (r: Result<i32, String>)
    ensures
        match r {
            Ok(n) => required_score(object@, key@) == Ok::<i32, Seq<char>>(n),
            Err(e) => required_score(object@, key@) == Err::<i32, Seq<char>>(e@),
        },
{
    match object.i64_field(key) {
        Some(n) => Ok(truncate_i32(n)),
        None => {
            let mut e: String = "missing or invalid field: ".to_owned();
            e.append(key);
            Err(e)
        },
    }
}

/// The analysis of the whole that a JSON object holds: it needs all five
/// scores. It is partial where a question failed.
pub open spec fn overall_in(
    object: JsonView,
    analyses: Seq<QuestionAnalysisView>,
    session_id: Seq<char>,
) -> Result<OverallView, Seq<char>> {
    match required_score(object, "overall_score"@) {
        Err(e) => Err(e),
        Ok(overall_score) => match required_score(object, "technical_score"@) {
            Err(e) => Err(e),
            Ok(technical_score) => match required_score(object, "communication_score"@) {
                Err(e) => Err(e),
                Ok(communication_score) => match required_score(
                    object,
                    "practical_experience_score"@,
                ) {
                    Err(e) => Err(e),
                    Ok(practical_experience_score) => match required_score(
                        object,
                        "confidence_score"@,
                    ) {
                        Err(e) => Err(e),
                        Ok(confidence_score) => Ok(
                            OverallView {
                                session_id,
                                status: if any_failed(analyses) {
                                    "partial"@
                                } else {
                                    "completed"@
                                },
                                overall_score,
                                technical_score,
                                communication_score,
                                practical_experience_score,
                                confidence_score,
                                summary: object.text_or_empty("summary"@),
                                strengths: object.texts_field("strengths"@),
                                weaknesses: object.texts_field("weaknesses"@),
                                recommendations: object.texts_field("recommendations"@),
                                questions: analyses,
                                disclaimer: DEFAULT_DISCLAIMER@,
                                message: Seq::empty(),
                            },
                        ),
                    },
                },
            },
        },
    }
}

/// The view of an analysis of the whole or an error.
pub open spec fn overall_result(r: Result<OverallInterviewAnalysis, String>) -> Result<
    OverallView,
    Seq<char>,
> {
    match r {
        Ok(o) => Ok(o@),
        Err(e) => Err(e@),
    }
}

/// Reads the analysis of the whole that a JSON object holds.
pub fn read_overall(
    object: &Json,
    question_analyses: Vec<QuestionAnalysis>,
    session_id: &str,
) -> (r: Result<OverallInterviewAnalysis, String>)
    ensures
        overall_result(r) == overall_in(
            object@,
            analysis_views(question_analyses@),
            session_id@,
        ),
{
    let status: String = if has_failed(&question_analyses) {
        "partial".to_owned()
    } else {
        "completed".to_owned()
    };
    let overall_score: i32 = match read_score(object, "overall_score") {
        Ok(n) => n,
        Err(e) => {
            return Err(e);
        },
    };
    let technical_score: i32 = match read_score(object, "technical_score") {
        Ok(n) => n,
        Err(e) => {
            return Err(e);
        },
    };
    let communication_score: i32 = match read_score(object, "communication_score") {
        Ok(n) => n,
        Err(e) => {
            return Err(e);
        },
    };
    let practical_experience_score: i32 = match read_score(object, "practical_experience_score") {
        Ok(n) => n,
        Err(e) => {
            return Err(e);
        },
    };
    let confidence_score: i32 = match read_score(object, "confidence_score") {
        Ok(n) => n,
        Err(e) => {
            return Err(e);
        },
    };
    Ok(
        OverallInterviewAnalysis {
            session_id: session_id.to_owned(),
            status,
            overall_score,
            technical_score,
            communication_score,
            practical_experience_score,
            confidence_score,
            summary: object.text_or_empty("summary"),
            strengths: object.texts_field("strengths"),
            weaknesses: object.texts_field("weaknesses"),
            recommendations: object.texts_field("recommendations"),
            questions: question_analyses,
            disclaimer: DEFAULT_DISCLAIMER.to_owned(),
            message: String::new(),
        },
    )
}

/// Reads the analysis of the whole in a model's answer.
pub fn parse_overall_result(
    raw: &str,
    question_analyses: Vec<QuestionAnalysis>,
    session_id: &str,
) -> (r: Result<OverallInterviewAnalysis, String>)
    ensures
        overall_result(r) == (match object_in(raw@) {
            Ok(object) => overall_in(object, analysis_views(question_analyses@), session_id@),
            Err(e) => Err(e),
        }),
{
    match read_object(raw) {
        Ok(object) => read_overall(&object, question_analyses, session_id),
        Err(e) => Err(e),
    }
}

/// The scores of the analyses that did not fail, added up.
pub open spec fn score_sum(analyses: Seq<QuestionAnalysisView>) -> int
    decreases analyses.len(),
{
    if analyses.len() == 0 {
        0
    } else {
        score_sum(analyses.drop_last()) + (if analyses.last().failed {
            0
        } else {
            analyses.last().score as int
        })
    }
}

/// How many analyses did not fail.
pub open spec fn successes(analyses: Seq<QuestionAnalysisView>) -> nat
    decreases analyses.len(),
{
    if analyses.len() == 0 {
        0
    } else {
        successes(analyses.drop_last()) + (if analyses.last().failed {
            0nat
        } else {
            1nat
        })
    }
}

/// A quotient, rounded towards zero.
pub open spec fn quotient(a: int, b: int) -> int {
    if a < 0 {
        -((-a) / b)
    } else {
        a / b
    }
}

/// The average score of the analyses that did not fail; zero without any.
pub open spec fn average_score(analyses: Seq<QuestionAnalysisView>) -> int {
    if successes(analyses) == 0 {
        0
    } else {
        quotient(score_sum(analyses), successes(analyses) as int)
    }
}

/// The average of scores lies within their range.
pub proof fn average_is_in_range(analyses: Seq<QuestionAnalysisView>)
    ensures
        i32::MIN <= average_score(analyses) <= i32::MAX,
{
    score_sum_bounds(analyses);
    let n = successes(analyses) as int;
    let s = score_sum(analyses);
    if n > 0 {
        if s < 0 {
            assert((-s) / n <= 0x8000_0000) by (nonlinear_arith)
                requires
                    n > 0,
                    -s <= n * 0x8000_0000,
            ;
            assert(0 <= (-s) / n) by (nonlinear_arith)
                requires
                    n > 0,
                    0 <= -s,
            ;
        } else {
            assert(s / n <= 0x7FFF_FFFF) by (nonlinear_arith)
                requires
                    n > 0,
                    s <= n * 0x7FFF_FFFF,
            ;
            assert(0 <= s / n) by (nonlinear_arith)
                requires
                    n > 0,
                    0 <= s,
            ;
        }
    }
}

proof fn score_sum_bounds(analyses: Seq<QuestionAnalysisView>)
    ensures
        -(successes(analyses) * 0x8000_0000) <= score_sum(analyses) <= successes(analyses)
            * 0x7FFF_FFFF,
        successes(analyses) <= analyses.len(),
    decreases analyses.len(),
{
    if analyses.len() > 0 {
        score_sum_bounds(analyses.drop_last());
    }
}

fn average(analyses: &Vec<QuestionAnalysis>) -> (r: i32)
    ensures
        r == average_score(analysis_views(analyses@)),
{
    let ghost all = analysis_views(analyses@);
    let mut sum: i128 = 0;
    let mut count: u64 = 0;
    let mut i: usize = 0;
    let total: usize = analyses.len();
    proof {
        assert(all.take(0) =~= Seq::empty());
    }
    while i < total
        invariant
            i <= analyses@.len(),
            total == analyses@.len(),
            all == analysis_views(analyses@),
            sum == score_sum(all.take(i as int)),
            count == successes(all.take(i as int)),
        decreases analyses@.len() - i,
    {
        proof {
            assert(all.take(i as int + 1).drop_last() =~= all.take(i as int));
            assert(all.take(i as int + 1).last() == analyses@[i as int]@);
            score_sum_bounds(all.take(i as int));
        }
        if !analyses[i].failed {
            sum = sum + analyses[i].score as i128;
            count = count + 1;
        }
        i += 1;
    }
    proof {
        assert(all.take(i as int) =~= all);
        score_sum_bounds(all);
        average_is_in_range(all);
    }
    if count == 0 {
        return 0;
    }
    if sum < 0 {
        let q: u128 = ((-sum) as u128) / (count as u128);
        (-(q as i128)) as i32
    } else {
        let q: u128 = (sum as u128) / (count as u128);
        q as i32
    }
}

/// What is shown where the analysis of the whole could not be had: the
/// analyses of the questions, with their average score in every dimension.
pub fn average_score_fallback(
    question_analyses: Vec<QuestionAnalysis>,
    session_id: &str,
    error_message: &str,
) -> (r: OverallInterviewAnalysis)
    ensures
        r@ == bare_overall(
            session_id@,
            "partial"@,
            average_score(analysis_views(question_analyses@)) as i32,
            Seq::empty(),
            analysis_views(question_analyses@),
            "Overall analysis could not be generated ("@ + error_message@
                + "); showing per-question results with an approximate average score."@,
        ),
{
    let score: i32 = average(&question_analyses);
    let mut message: String = "Overall analysis could not be generated (".to_owned();
    message.append(error_message);
    message.append("); showing per-question results with an approximate average score.");
    proof {
        average_is_in_range(analysis_views(question_analyses@));
        reveal_strlit("");
        assert(""@ =~= Seq::empty());
    }
    bare_result(session_id, "partial", score, "", question_analyses, message)
}

/// The questions to analyse: the first `max_questions` of an interview.
pub fn questions_to_analyze(request: &InterviewAnalysisRequest, max_questions: usize) -> (r:
    &[WireQuestionAnswer])
    ensures
        r@ == request.question_answers@.take(
            if request.question_answers@.len() < max_questions {
                request.question_answers@.len() as int
            } else {
                max_questions as int
            },
        ),
{
    let len: usize = if request.question_answers.len() < max_questions {
        request.question_answers.len()
    } else {
        max_questions
    };
    vstd::slice::slice_subrange(request.question_answers.as_slice(), 0, len)
}

/// The analyses that did not fail, in order.
pub open spec fn succeeded(analyses: Seq<QuestionAnalysisView>) -> Seq<QuestionAnalysisView> {
    analyses.filter(|a: QuestionAnalysisView| !a.failed)
}

/// Questions that failed count for nothing, wherever they stand: what is said
/// of the analyses, and their average, is that of the analyses that did not
/// fail. That some failed is known from there being fewer of those.
pub proof fn failures_do_not_count(analyses: Seq<QuestionAnalysisView>)
    ensures
        question_blocks(analyses) == question_blocks(succeeded(analyses)),
        average_score(analyses) == average_score(succeeded(analyses)),
        any_failed(analyses) <==> succeeded(analyses).len() < analyses.len(),
{
    only_successes_are_summed(analyses);
}

proof fn only_successes_are_summed(analyses: Seq<QuestionAnalysisView>)
    ensures
        question_blocks(analyses) == question_blocks(succeeded(analyses)),
        score_sum(analyses) == score_sum(succeeded(analyses)),
        successes(analyses) == successes(succeeded(analyses)),
        succeeded(analyses).len() <= analyses.len(),
        any_failed(analyses) <==> succeeded(analyses).len() < analyses.len(),
    decreases analyses.len(),
{
    reveal(Seq::filter);
    if analyses.len() > 0 {
        let before = analyses.drop_last();
        only_successes_are_summed(before);
        assert(analyses[analyses.len() - 1] == analyses.last());
        if any_failed(before) {
            let i = choose|i: int| 0 <= i < before.len() && (#[trigger] before[i]).failed;
            assert(analyses[i].failed);
        }
        if any_failed(analyses) && !analyses.last().failed {
            let i = choose|i: int| 0 <= i < analyses.len() && (#[trigger] analyses[i]).failed;
            assert(before[i].failed);
        }
        if !analyses.last().failed {
            assert(succeeded(analyses) == succeeded(before).push(analyses.last()));
            assert(succeeded(analyses).drop_last() =~= succeeded(before));
        }
    }
}

/// A field of an object holds an integer.
pub open spec fn holds_integer(object: JsonView, key: Seq<char>, n: int) -> bool {
    match object.get(key) {
        Some(JsonView::Number(JsonNumberView::Unsigned(u))) => u == n && n <= i64::MAX,
        Some(JsonView::Number(JsonNumberView::Negative(i))) => i == n,
        _ => false,
    }
}

/// A field of an object holds no integer that can be a score.
pub open spec fn holds_no_integer(object: JsonView, key: Seq<char>) -> bool {
    forall|n: int| !#[trigger] holds_integer(object, key, n)
}

proof fn scores_are_read(object: JsonView, key: Seq<char>, n: int)
    requires
        holds_integer(object, key, n),
        i32::MIN <= n <= i32::MAX,
    ensures
        required_score(object, key) == Ok::<i32, Seq<char>>(n as i32),
{
}

proof fn a_missing_score_is_an_error(object: JsonView, key: Seq<char>)
    requires
        holds_no_integer(object, key),
    ensures
        required_score(object, key) is Err,
{
    match object.get(key) {
        Some(JsonView::Number(JsonNumberView::Unsigned(u))) => {
            assert(!holds_integer(object, key, u as int));
        },
        Some(JsonView::Number(JsonNumberView::Negative(i))) => {
            assert(!holds_integer(object, key, i as int));
        },
        _ => {},
    }
}

/// Each score of the analysis of the whole is the one in the field of its own
/// name, and each of its texts the one in the field of its own name; the
/// analyses of the questions are kept; it is partial exactly where one of them
/// failed.
pub proof fn each_score_is_its_own(
    object: JsonView,
    analyses: Seq<QuestionAnalysisView>,
    session_id: Seq<char>,
    overall: i32,
    technical: i32,
    communication: i32,
    practical: i32,
    confidence: i32,
)
    requires
        holds_integer(object, "overall_score"@, overall as int),
        holds_integer(object, "technical_score"@, technical as int),
        holds_integer(object, "communication_score"@, communication as int),
        holds_integer(object, "practical_experience_score"@, practical as int),
        holds_integer(object, "confidence_score"@, confidence as int),
    ensures
        match overall_in(object, analyses, session_id) {
            Ok(o) => {
                &&& o.overall_score == overall
                &&& o.technical_score == technical
                &&& o.communication_score == communication
                &&& o.practical_experience_score == practical
                &&& o.confidence_score == confidence
                &&& o.session_id == session_id
                &&& o.questions == analyses
                &&& object.get("summary"@) matches Some(JsonView::Text(t)) ==> o.summary == t
                &&& object.get("summary"@) is None ==> o.summary.len() == 0
                &&& o.strengths == object.texts_field("strengths"@)
                &&& o.weaknesses == object.texts_field("weaknesses"@)
                &&& o.recommendations == object.texts_field("recommendations"@)
                &&& o.status == "partial"@ <==> exists|i: int|
                    0 <= i < analyses.len() && (#[trigger] analyses[i]).failed
                &&& o.status == "partial"@ || o.status == "completed"@
                &&& o.message.len() == 0
            },
            Err(_) => false,
        },
{
    scores_are_read(object, "overall_score"@, overall as int);
    scores_are_read(object, "technical_score"@, technical as int);
    scores_are_read(object, "communication_score"@, communication as int);
    scores_are_read(object, "practical_experience_score"@, practical as int);
    scores_are_read(object, "confidence_score"@, confidence as int);
    reveal_strlit("partial");
    reveal_strlit("completed");
    assert("partial"@.len() != "completed"@.len());
}

/// All five scores are needed: where one of them is missing, or is no integer,
/// there is no analysis of the whole.
pub proof fn every_score_is_needed(
    object: JsonView,
    analyses: Seq<QuestionAnalysisView>,
    session_id: Seq<char>,
)
    requires
        ({
            ||| holds_no_integer(object, "overall_score"@)
            ||| holds_no_integer(object, "technical_score"@)
            ||| holds_no_integer(object, "communication_score"@)
            ||| holds_no_integer(object, "practical_experience_score"@)
            ||| holds_no_integer(object, "confidence_score"@)
        }),
    ensures
        overall_in(object, analyses, session_id) is Err,
{
    if holds_no_integer(object, "overall_score"@) {
        a_missing_score_is_an_error(object, "overall_score"@);
    }
    if holds_no_integer(object, "technical_score"@) {
        a_missing_score_is_an_error(object, "technical_score"@);
    }
    if holds_no_integer(object, "communication_score"@) {
        a_missing_score_is_an_error(object, "communication_score"@);
    }
    if holds_no_integer(object, "practical_experience_score"@) {
        a_missing_score_is_an_error(object, "practical_experience_score"@);
    }
    if holds_no_integer(object, "confidence_score"@) {
        a_missing_score_is_an_error(object, "confidence_score"@);
    }
}

/// The analysis of a question is about that question: it carries its identifier,
/// its words, the candidate's answer and the passages that were found for it,
/// whether it could be read or not; what was said of it comes from the field of
/// its own name; and it has failed exactly where the assessment or the score is
/// missing.
pub proof fn an_analysis_is_about_its_question(object: JsonView, qa: WireQuestionAnswer)
    ensures
        ({
            let a = analysis_in(object, qa);
            &&& a.question_id == qa.question_id@
            &&& a.question == qa.question@
            &&& a.candidate_answer == qa.candidate_answer@
            &&& a.retrieved_sources.len() == qa.retrieved_context@.len()
            &&& forall|i: int|
                0 <= i < qa.retrieved_context@.len() ==> {
                    let source = #[trigger] a.retrieved_sources[i];
                    let passage = qa.retrieved_context@[i];
                    &&& source.filename == passage.source_filename@
                    &&& source.document_type == passage.document_type@
                    &&& source.text == passage.text@
                    &&& source.score == passage.score@
                }
            &&& a.failed <==> a.error_message is Some
            &&& a.failed <==> holds_no_integer(object, "score"@) || !(object.get(
                "assessment"@,
            ) matches Some(JsonView::Text(_)))
            &&& !a.failed ==> {
                &&& object.get("assessment"@) == Some(JsonView::Text(a.assessment))
                &&& forall|n: int|
                    i32::MIN <= n <= i32::MAX && #[trigger] holds_integer(object, "score"@, n)
                        ==> a.score == n
                &&& a.strengths == object.texts_field("strengths"@)
                &&& a.issues == object.texts_field("issues"@)
                &&& object.get("improved_answer"@) matches Some(JsonView::Text(t))
                    ==> a.improved_answer == t
            }
            &&& a.failed ==> a.score == 0
        }),
{
    match object.get("score"@) {
        Some(JsonView::Number(JsonNumberView::Unsigned(u))) => {
            if u <= i64::MAX {
                assert(holds_integer(object, "score"@, u as int));
            } else {
                assert(holds_no_integer(object, "score"@));
            }
        },
        Some(JsonView::Number(JsonNumberView::Negative(i))) => {
            assert(holds_integer(object, "score"@, i as int));
        },
        _ => {
            assert(holds_no_integer(object, "score"@));
        },
    }
}

/// What is asked about a question holds the question, the candidate's answer,
/// every passage that was found and where it came from.
pub proof fn a_question_is_asked_with_all_that_is_known(
    qa: WireQuestionAnswer,
    header: Seq<char>,
    i: int,
)
    ensures
        starts_with(question_text(qa, header), header),
        stands_in(question_text(qa, header), "\n\nINTERVIEW QUESTION\n"@ + qa.question@),
        qa.candidate_answer@.len() > 0 ==> stands_in(
            question_text(qa, header),
            "\n\nCANDIDATE ANSWER\n"@ + qa.candidate_answer@,
        ),
        0 <= i < qa.retrieved_context@.len() ==> stands_in(
            knowledge_text(qa),
            qa.retrieved_context@[i].text@,
        ) && stands_in(knowledge_text(qa), qa.retrieved_context@[i].source_filename@),
        stands_in(question_text(qa, header), knowledge_text(qa)),
{
    let text = question_text(qa, header);
    let known = knowledge_text(qa);
    let h1 = "\n\nRELEVANT RETRIEVED KNOWLEDGE\n"@;
    let q = "\n\nINTERVIEW QUESTION\n"@ + qa.question@;
    let answer = or_else(qa.candidate_answer@, "(No answer was captured for this question.)"@);
    let a = "\n\nCANDIDATE ANSWER\n"@ + answer;
    let n0 = header.len() as int;
    let n1 = n0 + h1.len();
    let n2 = n1 + known.len();
    let n3 = n2 + q.len();
    let n4 = n3 + a.len();
    assert(text.subrange(0, n0) =~= header);
    assert(text =~= text.take(n1) + known + text.skip(n2));
    assert(text =~= text.take(n2) + q + text.skip(n3));
    assert(text =~= text.take(n3) + a + text.skip(n4));
    if 0 <= i < qa.retrieved_context@.len() {
        let parts = qa.retrieved_context@.map_values(|c: WireRetrievedChunk| shown_passage(c));
        let part = parts[i];
        part_stands_in_joined(parts, "\n\n"@, i);
        let (before, after) = choose|before: Seq<char>, after: Seq<char>|
            known == #[trigger] (before + part + after);
        let c = qa.retrieved_context@[i];
        let lead = "[Source: "@;
        let k = lead.len() as int;
        let m = part.len() - c.text@.len();
        assert(part =~= lead + c.source_filename@ + part.skip(k + c.source_filename@.len()));
        assert(part =~= part.take(m) + c.text@);
        assert(known =~= (before + lead) + c.source_filename@ + (part.skip(
            k + c.source_filename@.len(),
        ) + after));
        assert(known =~= (before + part.take(m)) + c.text@ + after);
    }
}

/// Scores are added up one by one, and those of failed analyses are left out.
pub proof fn scores_are_added_up(
    first: Seq<QuestionAnalysisView>,
    second: Seq<QuestionAnalysisView>,
    one: QuestionAnalysisView,
)
    ensures
        score_sum(first + second) == score_sum(first) + score_sum(second),
        successes(first + second) == successes(first) + successes(second),
        !one.failed ==> score_sum(seq![one]) == one.score && successes(seq![one]) == 1,
        one.failed ==> score_sum(seq![one]) == 0 && successes(seq![one]) == 0,
    decreases second.len(),
{
    let single = seq![one];
    assert(single.drop_last() =~= Seq::<QuestionAnalysisView>::empty());
    assert(score_sum(single.drop_last()) == 0);
    assert(successes(single.drop_last()) == 0);
    assert(single.last() == one);
    if second.len() == 0 {
        assert(first + second =~= first);
    } else {
        scores_are_added_up(first, second.drop_last(), one);
        assert((first + second).drop_last() =~= first + second.drop_last());
    }
}

/// The average is the sum of the scores shared out among them, rounded towards
/// zero; without any it is zero.
pub proof fn the_average_shares_out_the_sum(analyses: Seq<QuestionAnalysisView>)
    ensures
        ({
            let n = successes(analyses) as int;
            let sum = score_sum(analyses);
            let average = average_score(analyses);
            &&& n == 0 ==> average == 0
            &&& n > 0 && sum >= 0 ==> average * n <= sum < (average + 1) * n
            &&& n > 0 && sum < 0 ==> (average - 1) * n < sum <= average * n
        }),
{
    let n = successes(analyses) as int;
    let sum = score_sum(analyses);
    if n > 0 {
        if sum >= 0 {
            let q = sum / n;
            assert(q * n <= sum < (q + 1) * n) by (nonlinear_arith)
                requires
                    n > 0,
                    q == sum / n,
            ;
        } else {
            let m = -sum;
            let q = m / n;
            assert(q * n <= m < (q + 1) * n) by (nonlinear_arith)
                requires
                    n > 0,
                    q == m / n,
            ;
            assert((-q - 1) * n == -((q + 1) * n)) by (nonlinear_arith);
            assert((-q) * n == -(q * n)) by (nonlinear_arith);
        }
    }
}

/// The analyses that did not fail are told of one by one, numbered from one on:
/// each with its question, its score, its assessment, its strengths and its
/// issues.
pub proof fn successes_are_told_one_by_one(analyses: Seq<QuestionAnalysisView>, i: int)
    requires
        0 <= i < succeeded(analyses).len(),
    ensures
        ({
            let told = question_blocks(analyses);
            let one = succeeded(analyses)[i];
            &&& told.len() == succeeded(analyses).len()
            &&& starts_with(told[i], "Q"@ + decimal((i + 1) as nat) + ": "@ + one.question)
            &&& stands_in(told[i], "\nScore: "@ + signed_decimal(one.score as int))
            &&& stands_in(told[i], "\nAssessment: "@ + one.assessment)
            &&& one.strengths.len() > 0 ==> stands_in(
                told[i],
                "\nStrengths: "@ + joined(one.strengths, ", "@),
            )
            &&& one.issues.len() > 0 ==> ends_with(
                told[i],
                "\nIssues: "@ + joined(one.issues, ", "@),
            )
        }),
{
    only_successes_are_summed(analyses);
    let kept = succeeded(analyses);
    none_is_failed(analyses);
    blocks_of_successes(kept, i);
    let one = kept[i];
    let block = question_block((i + 1) as nat, one);
    let head = "Q"@ + decimal((i + 1) as nat) + ": "@ + one.question;
    let score = "\nScore: "@ + signed_decimal(one.score as int);
    let assessed = "\nAssessment: "@ + one.assessment;
    let strong = "\nStrengths: "@ + in_one_line(one.strengths);
    let issues = "\nIssues: "@ + in_one_line(one.issues);
    assert(block =~= head + score + assessed + strong + issues);
    assert(block.subrange(0, head.len() as int) =~= head);
    assert(block =~= head + score + (assessed + strong + issues));
    assert(block =~= (head + score) + assessed + (strong + issues));
    assert(block =~= (head + score + assessed) + strong + issues);
    assert(block.subrange(block.len() - issues.len(), block.len() as int) =~= issues);
}

proof fn none_is_failed(analyses: Seq<QuestionAnalysisView>)
    ensures
        forall|i: int| 0 <= i < succeeded(analyses).len() ==> !(#[trigger] succeeded(
            analyses,
        )[i]).failed,
    decreases analyses.len(),
{
    reveal(Seq::filter);
    if analyses.len() > 0 {
        none_is_failed(analyses.drop_last());
        let before = succeeded(analyses.drop_last());
        assert forall|i: int| 0 <= i < succeeded(analyses).len() implies !(#[trigger] succeeded(
            analyses,
        )[i]).failed by {
            if i < before.len() {
                assert(succeeded(analyses)[i] == before[i]);
            }
        }
    }
}

proof fn blocks_of_successes(kept: Seq<QuestionAnalysisView>, i: int)
    requires
        forall|k: int| 0 <= k < kept.len() ==> !(#[trigger] kept[k]).failed,
        0 <= i < kept.len(),
    ensures
        question_blocks(kept).len() == kept.len(),
        question_blocks(kept)[i] == question_block((i + 1) as nat, kept[i]),
    decreases kept.len(),
{
    let before = kept.drop_last();
    assert(!kept[kept.len() - 1].failed);
    assert forall|k: int| 0 <= k < before.len() implies !(#[trigger] before[k]).failed by {
        assert(before[k] == kept[k]);
    }
    if before.len() == 0 {
        assert(question_blocks(before) == Seq::<Seq<char>>::empty());
    } else {
        blocks_of_successes(
            before,
            if i < before.len() {
                i
            } else {
                0
            },
        );
    }
}

} // verus!
