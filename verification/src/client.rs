//! What a model is asked, and what is made of its answers: questions to the
//! assistant, the analysis of an interview, notes and preparations.
use vstd::prelude::*;
use vstd::string::*;

use crate::agent::tool_list::{tool_views, ToolSpec, ToolView};
use crate::agent::types::{message_views, AgentMessage, AgentMessageView};
use crate::backend::{
    analysis_views, copy_analyses, nothing_found, progress_views, AnalysisProgressEvent, AskRequest,
    InterviewAnalysisRequest, NoteSummary, NoteSummaryView, NotesAskRequest, NotesSummaryRequest,
    OverallInterviewAnalysis, OverallView, ProgressView, QuestionAnalysis, QuestionAnalysisView,
    SetupAnalysisRequest, SetupAnalysisResponse, WireQuestionAnswer,
};
use crate::http_status::is_status;
use crate::json::{opt_view, Json, JsonNumber, JsonNumberView, JsonView};
use crate::prompts::analysis::{
    a_question_is_asked_with_all_that_is_known, analysis_in, average_is_in_range, average_score,
    average_score_fallback, bare_overall, build_overall_prompt,
    build_question_prompt, failed_analysis, finalize_empty, header_text, overall_in, overall_text,
    parse_overall_result, parse_question_analysis, provider_failure_question_analysis,
    question_messages, question_text, questions_to_analyze, sources_of, SYSTEM_INSTRUCTIONS,
};
use crate::prompts::chat::{chat_views, ChatMessage, ChatView};
use crate::prompts::notes::{object_in, scene_and_message};
use crate::prompts::{notes, setup, veronica};
use crate::provider::{default_model, named_provider, LlmProvider};
use crate::providers::sse::{after_frames, after_lines, data_in, line_data_in};
use crate::providers::{
    answer_value, anthropic, gemini, openai, provider_request, text_result, unreachable_message,
    ProviderRequest, ProviderRequestView,
};
use crate::text::{
    decimal, decimal_text, ends_with, is_whitespace, standing_in_passes_on, stands_in,
    starts_with, the_middle_stands_in, trim, trimmed, trimmed_to_nothing, views,
};

verus! {

/// How free the answers to questions are.
pub open spec fn answer_temperature() -> JsonView {
    JsonView::Number(
        JsonNumberView::Float { bits: 0x3FE4CCCCC0000000, text: "0.6499999761581421"@ },
    )
}

/// How free analyses and summaries are.
pub open spec fn analysis_temperature() -> JsonView {
    JsonView::Number(
        JsonNumberView::Float { bits: 0x3FC99999A0000000, text: "0.20000000298023224"@ },
    )
}

/// How free the reading of documents is.
pub open spec fn setup_temperature() -> JsonView {
    JsonView::Number(
        JsonNumberView::Float { bits: 0x3FB99999A0000000, text: "0.10000000149011612"@ },
    )
}

fn number(bits: u64, text: &str) -> (r: Json)
    ensures
        r@ == JsonView::Number(JsonNumberView::Float { bits, text: text@ }),
{
    Json::Number(JsonNumber::Float { bits, text: text.to_owned() })
}

/// The most questions of an interview that are analysed.
pub const MAX_QUESTIONS_TO_ANALYZE: usize = 50;

/// How long an analysis or a summary may be.
pub const MAX_OUTPUT_TOKENS: u32 = 1500;

/// What a model is asked.
#[derive(Debug)]
pub struct Generation {
    pub messages: Vec<ChatMessage>,
    pub temperature: Json,
    pub max_tokens: u32,
}

/// The view of what a model is asked.
pub struct GenerationView {
    pub messages: Seq<ChatView>,
    pub temperature: JsonView,
    pub max_tokens: u32,
}

impl Generation {
    pub open spec fn view(&self) -> GenerationView {
        GenerationView {
            messages: chat_views(self.messages@),
            temperature: self.temperature@,
            max_tokens: self.max_tokens,
        }
    }
}

/// The provider that is asked: the named one, or else Anthropic.
pub open spec fn provider_or_default(name: Option<Seq<char>>) -> LlmProvider {
    match name {
        Some(n) => match named_provider(n) {
            Some(p) => p,
            None => LlmProvider::Anthropic,
        },
        None => LlmProvider::Anthropic,
    }
}

/// The provider that is asked: the named one, or else Anthropic.
pub fn choose_provider(name: &Option<String>) -> (r: LlmProvider)
    ensures
        r == provider_or_default(opt_view(*name)),
{
    match name {
        Some(n) => match LlmProvider::from_wire_str(n.as_str()) {
            Some(p) => p,
            None => LlmProvider::Anthropic,
        },
        None => LlmProvider::Anthropic,
    }
}

/// The texts among some that may be missing.
pub open spec fn present(items: Seq<Option<Seq<char>>>) -> Seq<Seq<char>>
    decreases items.len(),
{
    if items.len() == 0 {
        Seq::empty()
    } else {
        match items.last() {
            Some(t) => present(items.drop_last()).push(t),
            None => present(items.drop_last()),
        }
    }
}

fn keep_present(items: Vec<Option<String>>) -> (r: Vec<String>)
    ensures
        views(r@) == present(openai::opt_views(items@)),
{
    let ghost all = openai::opt_views(items@);
    let mut out: Vec<String> = Vec::new();
    let mut i: usize = 0;
    proof {
        assert(all.take(0) =~= Seq::empty());
        assert(views(out@) =~= Seq::empty());
    }
    while i < items.len()
        invariant
            i <= items@.len(),
            all == openai::opt_views(items@),
            views(out@) == present(all.take(i as int)),
        decreases items@.len() - i,
    {
        let ghost before = views(out@);
        proof {
            assert(all.take(i as int + 1).drop_last() =~= all.take(i as int));
            assert(all.take(i as int + 1).last() == opt_view(items@[i as int]));
        }
        match &items[i] {
            Some(t) => {
                out.push(t.clone());
                proof {
                    assert(views(out@) =~= before.push(t@));
                }
            },
            None => {},
        }
        i += 1;
    }
    proof {
        assert(all.take(i as int) =~= all);
    }
    out
}

/// The request to a provider for an answer.
pub open spec fn request_to(
    provider: LlmProvider,
    names: anthropic::ModelNames,
    api_key: Seq<char>,
    asked: GenerationView,
    stream: bool,
) -> ProviderRequestView {
    let model = provider.standard_model(names);
    match provider {
        LlmProvider::OpenAi => provider_request(
            openai::CHAT_COMPLETIONS_URL@,
            openai::request_headers(api_key),
            openai::request_body(
                model,
                asked.messages,
                asked.temperature,
                asked.max_tokens,
                stream,
            ),
        ),
        LlmProvider::Anthropic => provider_request(
            anthropic::MESSAGES_URL@,
            anthropic::request_headers(api_key),
            anthropic::request_body(
                model,
                names,
                asked.messages,
                asked.temperature,
                asked.max_tokens,
                stream,
            ),
        ),
        LlmProvider::Gemini => provider_request(
            gemini::model_url(model, api_key, stream),
            Seq::empty(),
            gemini::instructions_moved(
                gemini::nested_body(asked.messages, asked.temperature, asked.max_tokens),
            ),
        ),
    }
}

/// An agent's request to a provider.
pub open spec fn agent_request_to(
    provider: LlmProvider,
    names: anthropic::ModelNames,
    api_key: Seq<char>,
    messages: Seq<AgentMessageView>,
    tools: Seq<ToolView>,
) -> ProviderRequestView {
    let model = provider.standard_model(names);
    match provider {
        LlmProvider::OpenAi => provider_request(
            openai::CHAT_COMPLETIONS_URL@,
            openai::request_headers(api_key),
            openai::agent_body(model, messages, tools),
        ),
        LlmProvider::Anthropic => provider_request(
            anthropic::MESSAGES_URL@,
            anthropic::request_headers(api_key),
            anthropic::agent_body(model, names, messages, tools),
        ),
        LlmProvider::Gemini => provider_request(
            gemini::model_url(model, api_key, true),
            Seq::empty(),
            gemini::agent_body(messages, tools),
        ),
    }
}

/// What a provider is called where a failure of it is told.
pub open spec fn display_name(provider: LlmProvider) -> Seq<char> {
    match provider {
        LlmProvider::OpenAi => "OpenAI"@,
        LlmProvider::Anthropic => "Anthropic"@,
        LlmProvider::Gemini => "Gemini"@,
    }
}

/// The text of a provider's answer.
pub open spec fn answer_text(provider: LlmProvider, answer: JsonView) -> Seq<char> {
    match provider {
        LlmProvider::OpenAi => openai::choice_text(answer, "message"@),
        LlmProvider::Anthropic => anthropic::answer_text(answer),
        LlmProvider::Gemini => gemini::answer_text(answer),
    }
}

/// The texts that what has come of a stream adds to the answer.
pub open spec fn deltas_in(provider: LlmProvider, buffer: Seq<char>) -> Seq<Seq<char>> {
    match provider {
        LlmProvider::OpenAi => present(openai::deltas(line_data_in(buffer))),
        LlmProvider::Anthropic => anthropic::deltas(data_in(buffer)),
        LlmProvider::Gemini => gemini::deltas(data_in(buffer)),
    }
}

/// What is left of a stream after its complete parts.
pub open spec fn rest_of(provider: LlmProvider, buffer: Seq<char>) -> Seq<char> {
    match provider {
        LlmProvider::OpenAi => after_lines(buffer),
        _ => after_frames(buffer),
    }
}

/// The client of a provider, with the user's key to it.
#[derive(Debug)]
pub struct DirectLlmClient {
    provider: LlmProvider,
    api_key: String,
    names: anthropic::ModelNames,
}

impl DirectLlmClient {
    pub closed spec fn provider(&self) -> LlmProvider {
        self.provider
    }

    pub closed spec fn key(&self) -> Seq<char> {
        self.api_key@
    }

    pub closed spec fn names(&self) -> anthropic::ModelNames {
        self.names
    }

    /// A client of the named provider, or else of Anthropic. `stored` is the
    /// key to it, as far as one is kept: without one there is no client.
    pub fn new(
        name: &Option<String>,
        stored: Result<Option<String>, String>,
        names: anthropic::ModelNames,
    ) -> (r: Result<DirectLlmClient, String>)
        ensures
            match stored {
                Err(e) => r matches Err(m) && m@ == e@,
                Ok(None) => r matches Err(m) && m@ == missing_key(
                    provider_or_default(opt_view(*name)),
                ),
                Ok(Some(key)) => if key@.len() == 0 {
                    r matches Err(m) && m@ == missing_key(provider_or_default(opt_view(*name)))
                } else {
                    r matches Ok(c) && c.provider() == provider_or_default(opt_view(*name))
                        && c.key() == key@ && c.names() == names
                },
            },
    {
        let provider: LlmProvider = choose_provider(name);
        match stored {
            Err(e) => Err(e),
            Ok(None) => Err(missing_key_message(provider)),
            Ok(Some(key)) => {
                if key.as_str().is_empty() {
                    Err(missing_key_message(provider))
                } else {
                    Ok(DirectLlmClient { provider, api_key: key, names })
                }
            },
        }
    }

    /// The request for an answer, in one piece or as a stream.
    pub fn request(&self, asked: Generation, stream: bool) -> (r: ProviderRequest)
        ensures
            r@ == request_to(self.provider(), self.names(), self.key(), asked@, stream),
    {
        let model: &str = default_model(self.provider, &self.names);
        match self.provider {
            LlmProvider::OpenAi => openai::chat_request(
                self.api_key.as_str(),
                model,
                &asked.messages,
                asked.temperature,
                asked.max_tokens,
                stream,
            ),
            LlmProvider::Anthropic => anthropic::chat_request(
                self.api_key.as_str(),
                model,
                &self.names,
                &asked.messages,
                asked.temperature,
                asked.max_tokens,
                stream,
            ),
            LlmProvider::Gemini => gemini::chat_request(
                self.api_key.as_str(),
                model,
                &asked.messages,
                asked.temperature,
                asked.max_tokens,
                stream,
            ),
        }
    }

    /// An agent's request: its messages and the tools that the model may call.
    pub fn agent_request(&self, messages: &Vec<AgentMessage>, tools: &Vec<ToolSpec>) -> (r:
        ProviderRequest)
        ensures
            r@ == agent_request_to(
                self.provider(),
                self.names(),
                self.key(),
                message_views(messages@),
                tool_views(tools@),
            ),
    {
        let api_key: String = self.api_key.clone();
        let model: String = default_model(self.provider, &self.names).to_owned();
        match self.provider {
            LlmProvider::OpenAi => openai::OpenAiAgent { api_key, model }.request(messages, tools),
            LlmProvider::Anthropic => anthropic::AnthropicAgent { api_key, model }.request(
                &self.names,
                messages,
                tools,
            ),
            LlmProvider::Gemini => gemini::GeminiAgent { api_key, model }.request(messages, tools),
        }
    }

    /// The provider that is asked.
    pub fn which(&self) -> (r: LlmProvider)
        ensures
            r == self.provider(),
    {
        self.provider
    }

    /// What the provider is called where a failure of it is told.
    pub fn name(&self) -> (r: &'static str)
        ensures
            r@ == display_name(self.provider()),
    {
        match self.provider {
            LlmProvider::OpenAi => "OpenAI",
            LlmProvider::Anthropic => "Anthropic",
            LlmProvider::Gemini => "Gemini",
        }
    }

    /// The message where the provider could not be reached.
    pub fn unreachable(&self, error: &str) -> (r: String)
        ensures
            r@ == "failed to reach "@ + display_name(self.provider()) + ": "@ + error@,
    {
        unreachable_message(self.name(), error)
    }

    /// The text of an answer that was read.
    pub fn extract_text(&self, answer: &Json) -> (r: String)
        ensures
            r@ == answer_text(self.provider(), answer@),
    {
        match self.provider {
            LlmProvider::OpenAi => openai::extract_text(answer),
            LlmProvider::Anthropic => anthropic::extract_text(answer),
            LlmProvider::Gemini => gemini::extract_text(answer),
        }
    }

    /// Reads an answer in one piece.
    pub fn read_generated(&self, status: u16, body: &Result<String, String>) -> (r: Result<
        String,
        String,
    >)
        requires
            is_status(status),
        ensures
            text_result(r) == (match answer_value(
                display_name(self.provider()),
                status,
                text_result(*body),
            ) {
                Ok(answer) => Ok(answer_text(self.provider(), answer)),
                Err(e) => Err(e),
            }),
    {
        match self.provider {
            LlmProvider::OpenAi => openai::read_generated(status, body),
            LlmProvider::Anthropic => anthropic::read_generated(status, body),
            LlmProvider::Gemini => gemini::read_generated(status, body),
        }
    }

    /// Takes what is complete off what has come of a stream, and gives the
    /// texts that it adds to the answer.
    pub fn drain_deltas(&self, buffer: &mut String) -> (r: Vec<String>)
        ensures
            views(r@) == deltas_in(self.provider(), old(buffer)@),
            final(buffer)@ == rest_of(self.provider(), old(buffer)@),
    {
        match self.provider {
            LlmProvider::OpenAi => {
                let deltas: Vec<Option<String>> = openai::drain_sse_deltas(buffer);
                keep_present(deltas)
            },
            LlmProvider::Anthropic => anthropic::drain_text_deltas(buffer),
            LlmProvider::Gemini => gemini::drain_text_deltas(buffer),
        }
    }
}

/// What is said where there is no key to a provider.
pub open spec fn missing_key(provider: LlmProvider) -> Seq<char> {
    "No API key configured for "@ + provider.wire() + ". Add one in Settings."@
}

fn missing_key_message(provider: LlmProvider) -> (r: String)
    ensures
        r@ == missing_key(provider),
{
    let mut e: String = "No API key configured for ".to_owned();
    e.append(provider.as_wire_str());
    e.append(". Add one in Settings.");
    e
}

/// What the assistant is asked.
pub fn ask_generation(request: &AskRequest) -> (r: Generation)
    ensures
        r@ == (GenerationView {
            messages: veronica::messages_for(*request),
            temperature: answer_temperature(),
            max_tokens: veronica::token_budget(request.question@, request.answer_length@),
        }),
{
    Generation {
        messages: veronica::build_messages(request),
        temperature: number(0x3FE4CCCCC0000000, "0.6499999761581421"),
        max_tokens: veronica::max_tokens_for_question(request),
    }
}

/// The answer to a question, given what the model said: without the space
/// around it.
pub fn answer_of(generated: Result<String, String>) -> (r: Result<String, String>)
    ensures
        text_result(r) == (match text_result(generated) {
            Ok(t) => Ok(trim(t)),
            Err(e) => Err(e),
        }),
{
    match generated {
        Ok(t) => Ok(trimmed(t.as_str())),
        Err(e) => Err(e),
    }
}

/// What is asked about notes.
pub fn notes_ask_generation(request: &NotesAskRequest) -> (r: Generation)
    ensures
        r@ == (GenerationView {
            messages: scene_and_message(notes::ASK_SYSTEM_PROMPT@, notes::ask_text(*request)),
            temperature: answer_temperature(),
            max_tokens: notes::ASK_MAX_TOKENS,
        }),
{
    Generation {
        messages: notes::build_ask_messages(request),
        temperature: number(0x3FE4CCCCC0000000, "0.6499999761581421"),
        max_tokens: notes::ASK_MAX_TOKENS,
    }
}

/// What is asked for the summary of a note.
pub fn notes_summary_generation(request: &NotesSummaryRequest) -> (r: Generation)
    ensures
        r@ == (GenerationView {
            messages: scene_and_message(
                notes::SUMMARY_SYSTEM_PROMPT@,
                notes::summary_text(*request),
            ),
            temperature: analysis_temperature(),
            max_tokens: MAX_OUTPUT_TOKENS,
        }),
{
    Generation {
        messages: notes::build_summary_messages(request),
        temperature: number(0x3FC99999A0000000, "0.20000000298023224"),
        max_tokens: MAX_OUTPUT_TOKENS,
    }
}

/// The summary of a note that could not be made.
pub open spec fn no_note_summary(error: Seq<char>) -> NoteSummaryView {
    NoteSummaryView {
        summary: Seq::empty(),
        tasks: Seq::empty(),
        decisions: Seq::empty(),
        key_points: Seq::empty(),
        message: "AI summary could not be generated ("@ + error + ")."@,
    }
}

/// The summary of a note, given what the model said. A failure is told in it.
pub fn note_summary_of(generated: Result<String, String>) -> (r: NoteSummary)
    ensures
        r@ == (match text_result(generated) {
            Ok(raw) => match object_in(raw) {
                Ok(object) => notes::summary_in(object),
                Err(e) => no_note_summary(e),
            },
            Err(e) => no_note_summary(e),
        }),
{
    match generated {
        Ok(raw) => match notes::parse_summary(raw.as_str()) {
            Ok(summary) => summary,
            Err(e) => notes::summary_failure(e.as_str()),
        },
        Err(e) => notes::summary_failure(e.as_str()),
    }
}

/// There is nothing to read in a resume and a job description.
pub open spec fn no_documents(request: SetupAnalysisRequest) -> bool {
    &&& setup::section(Seq::empty(), opt_view(request.resume_text)).len() == 0
    &&& setup::section(Seq::empty(), opt_view(request.job_description_text)).len() == 0
}

/// What is asked about a resume and a job description, if there is anything to
/// read in them.
pub fn setup_generation(request: &SetupAnalysisRequest) -> (r: Option<Generation>)
    ensures
        if no_documents(*request) {
            r is None
        } else {
            r matches Some(g) && g@ == (GenerationView {
                messages: scene_and_message(
                    setup::SYSTEM_PROMPT@,
                    setup::documents_text(*request),
                ),
                temperature: setup_temperature(),
                max_tokens: setup::MAX_TOKENS,
            })
        },
{
    match setup::build_messages(request) {
        Some(messages) => Some(
            Generation {
                messages,
                temperature: number(0x3FB99999A0000000, "0.10000000149011612"),
                max_tokens: setup::MAX_TOKENS,
            },
        ),
        None => None,
    }
}

/// What was found in a resume and a job description, given what the model said,
/// if it was asked. A failure is the same as nothing found.
pub fn setup_of(generated: Option<Result<String, String>>) -> (r: SetupAnalysisResponse)
    ensures
        r@ == (match generated {
            Some(Ok(raw)) => setup::facts_in_answer(raw@),
            _ => nothing_found(),
        }),
{
    match generated {
        Some(Ok(raw)) => setup::parse_response(raw.as_str()),
        Some(Err(_)) => setup::empty_response(),
        None => setup::empty_response(),
    }
}

/// What is asked for an analysis.
pub open spec fn analysis_generation(message: Seq<char>) -> GenerationView {
    GenerationView {
        messages: scene_and_message(SYSTEM_INSTRUCTIONS@, message),
        temperature: analysis_temperature(),
        max_tokens: MAX_OUTPUT_TOKENS,
    }
}

/// The role, the company and the job of an interview.
pub open spec fn request_header(request: InterviewAnalysisRequest) -> Seq<char> {
    header_text(
        opt_view(request.role),
        opt_view(request.company),
        opt_view(request.job_description),
    )
}

/// What is asked for the analysis of a question.
pub fn question_generation(qa: &WireQuestionAnswer, request: &InterviewAnalysisRequest) -> (r:
    Generation)
    ensures
        r@ == analysis_generation(question_text(*qa, request_header(*request))),
{
    let (system, user) = build_question_prompt(
        qa,
        &request.role,
        &request.company,
        &request.job_description,
    );
    Generation {
        messages: question_messages(system.as_str(), user.as_str()),
        temperature: number(0x3FC99999A0000000, "0.20000000298023224"),
        max_tokens: MAX_OUTPUT_TOKENS,
    }
}

/// The analysis of a question, given what the model said.
pub open spec fn question_result(
    qa: WireQuestionAnswer,
    generated: Result<Seq<char>, Seq<char>>,
) -> QuestionAnalysisView {
    match generated {
        Ok(raw) => match object_in(raw) {
            Ok(object) => analysis_in(object, qa),
            Err(e) => failed_analysis(qa, sources_of(qa), e),
        },
        Err(e) => failed_analysis(qa, Seq::empty(), "LLM request failed: "@ + e),
    }
}

/// The analysis of a question, given what the model said.
pub fn question_analysis_of(qa: &WireQuestionAnswer, generated: Result<String, String>) -> (r:
    QuestionAnalysis)
    ensures
        r@ == question_result(*qa, text_result(generated)),
{
    match generated {
        Ok(raw) => parse_question_analysis(raw.as_str(), qa),
        Err(e) => provider_failure_question_analysis(qa, e.as_str()),
    }
}

/// What is asked for the analysis of the whole.
pub fn overall_generation(
    analyses: &Vec<QuestionAnalysis>,
    request: &InterviewAnalysisRequest,
) -> (r: Generation)
    ensures
        r@ == analysis_generation(
            overall_text(analysis_views(analyses@), request_header(*request)),
        ),
{
    let (system, user) = build_overall_prompt(
        analyses,
        &request.role,
        &request.company,
        &request.job_description,
    );
    Generation {
        messages: question_messages(system.as_str(), user.as_str()),
        temperature: number(0x3FC99999A0000000, "0.20000000298023224"),
        max_tokens: MAX_OUTPUT_TOKENS,
    }
}

/// The analyses of the questions without one of the whole, and why there is
/// none.
pub open spec fn without_overall(
    analyses: Seq<QuestionAnalysisView>,
    session_id: Seq<char>,
    error: Seq<char>,
) -> OverallView {
    bare_overall(
        session_id,
        "partial"@,
        average_score(analyses) as i32,
        Seq::empty(),
        analyses,
        "Overall analysis could not be generated ("@ + error
            + "); showing per-question results with an approximate average score."@,
    )
}

/// The result for an interview without questions.
pub open spec fn empty_overall(session_id: Seq<char>) -> OverallView {
    bare_overall(
        session_id,
        "completed"@,
        0,
        "No interview questions were identified in the transcript, so no analysis could be generated."@,
        Seq::empty(),
        "No question/answer pairs were extracted from the transcript."@,
    )
}

/// The analysis of the whole, given what the model said.
pub open spec fn overall_result_of(
    analyses: Seq<QuestionAnalysisView>,
    session_id: Seq<char>,
    generated: Result<Seq<char>, Seq<char>>,
) -> OverallView {
    match generated {
        Ok(raw) => match object_in(raw) {
            Ok(object) => match overall_in(object, analyses, session_id) {
                Ok(result) => result,
                Err(e) => without_overall(analyses, session_id, e),
            },
            Err(e) => without_overall(analyses, session_id, e),
        },
        Err(e) => without_overall(analyses, session_id, e),
    }
}

/// The analysis of the whole, given what the model said. A failure is told in
/// it, beside the analyses of the questions.
pub fn finalize(
    analyses: &Vec<QuestionAnalysis>,
    session_id: &str,
    generated: Result<String, String>,
) -> (r: OverallInterviewAnalysis)
    ensures
        r@ == overall_result_of(analysis_views(analyses@), session_id@, text_result(generated)),
{
    match generated {
        Ok(raw) => {
            match parse_overall_result(raw.as_str(), copy_analyses(analyses), session_id) {
                Ok(result) => result,
                Err(e) => average_score_fallback(copy_analyses(analyses), session_id, e.as_str()),
            }
        },
        Err(e) => average_score_fallback(copy_analyses(analyses), session_id, e.as_str()),
    }
}

/// What happens next in the analysis of an interview: the model is asked, or
/// the analysis is done.
#[derive(Debug)]
pub enum AnalysisAction {
    Ask(Generation),
    Done(OverallInterviewAnalysis),
}

/// The view of what happens next.
pub enum AnalysisActionView {
    Ask(GenerationView),
    Done(OverallView),
}

impl AnalysisAction {
    pub open spec fn view(&self) -> AnalysisActionView {
        match *self {
            AnalysisAction::Ask(g) => AnalysisActionView::Ask(g@),
            AnalysisAction::Done(r) => AnalysisActionView::Done(r@),
        }
    }
}

/// A step of the analysis of an interview: what is told of it, and what happens
/// next.
#[derive(Debug)]
pub struct AnalysisStep {
    pub events: Vec<AnalysisProgressEvent>,
    pub action: AnalysisAction,
}

/// The view of a step.
pub struct AnalysisStepView {
    pub events: Seq<ProgressView>,
    pub action: AnalysisActionView,
}

impl AnalysisStep {
    pub open spec fn view(&self) -> AnalysisStepView {
        AnalysisStepView { events: progress_views(self.events@), action: self.action@ }
    }
}

/// A report without a result.
pub open spec fn plain_progress(stage: Seq<char>, detail: Seq<char>) -> ProgressView {
    ProgressView { stage, detail, question_analysis: None, result: None }
}

/// The report that a question is analysed.
pub open spec fn question_progress(number: nat, total: nat) -> ProgressView {
    plain_progress(
        "question"@,
        "Analyzing question "@ + decimal(number) + " of "@ + decimal(total) + "..."@,
    )
}

/// The report that a question has been analysed.
pub open spec fn completed_progress(
    number: nat,
    total: nat,
    analysis: QuestionAnalysisView,
) -> ProgressView {
    ProgressView {
        question_analysis: Some(analysis),
        ..plain_progress(
            "question_complete"@,
            "Completed question "@ + decimal(number) + " of "@ + decimal(total) + "."@,
        )
    }
}

/// The report that the whole is analysed.
pub open spec fn overall_progress() -> ProgressView {
    plain_progress("overall"@, "Generating overall assessment..."@)
}

/// The report of the result.
pub open spec fn result_progress(result: OverallView) -> ProgressView {
    ProgressView {
        result: Some(result),
        ..plain_progress("complete"@, "Analysis complete."@)
    }
}

fn plain(stage: &str, detail: String) -> (r: AnalysisProgressEvent)
    ensures
        r@ == plain_progress(stage@, detail@),
{
    AnalysisProgressEvent {
        stage: stage.to_owned(),
        detail,
        question_analysis: None,
        result: None,
    }
}

fn counted(what: &str, number: u64, total: u64, end: &str) -> (r: String)
    ensures
        r@ == what@ + decimal(number as nat) + " of "@ + decimal(total as nat) + end@,
{
    let mut t: String = what.to_owned();
    let n: String = decimal_text(number);
    t.append(n.as_str());
    t.append(" of ");
    let m: String = decimal_text(total);
    t.append(m.as_str());
    t.append(end);
    t
}

/// The analysis of an interview while it runs.
pub struct AnalysisRunView {
    pub request: InterviewAnalysisRequest,
    /// The analyses of the first questions.
    pub analyses: Seq<QuestionAnalysisView>,
}

/// How many questions of an interview are analysed.
pub open spec fn question_count(request: InterviewAnalysisRequest) -> nat {
    if request.question_answers@.len() < MAX_QUESTIONS_TO_ANALYZE {
        request.question_answers@.len()
    } else {
        MAX_QUESTIONS_TO_ANALYZE as nat
    }
}

impl AnalysisRunView {
    /// There is a request for what is left to ask: no more analyses than
    /// questions.
    pub open spec fn wf(self) -> bool {
        self.analyses.len() <= question_count(self.request)
    }

    /// What is asked next: the next question, or the whole.
    pub open spec fn next_generation(self) -> GenerationView {
        let header = request_header(self.request);
        if self.analyses.len() < question_count(self.request) {
            analysis_generation(
                question_text(
                    self.request.question_answers@[self.analyses.len() as int],
                    header,
                ),
            )
        } else {
            analysis_generation(overall_text(self.analyses, header))
        }
    }

    /// The report on what is asked next.
    pub open spec fn next_progress(self) -> ProgressView {
        if self.analyses.len() < question_count(self.request) {
            question_progress(self.analyses.len() + 1, question_count(self.request))
        } else {
            overall_progress()
        }
    }

    /// The start of an analysis. Without questions it is also its end.
    pub open spec fn first_step(self) -> AnalysisStepView {
        let begun = seq![
            plain_progress("transcript"@, "Processing transcript..."@),
            plain_progress(
                "retrieval"@,
                "Retrieved context for "@ + decimal(question_count(self.request))
                    + " questions."@,
            ),
            self.next_progress(),
        ];
        if question_count(self.request) == 0 {
            let result = empty_overall(self.request.session_id@);
            AnalysisStepView {
                events: begun.push(result_progress(result)),
                action: AnalysisActionView::Done(result),
            }
        } else {
            AnalysisStepView {
                events: begun,
                action: AnalysisActionView::Ask(self.next_generation()),
            }
        }
    }

    /// Takes what the model said.
    pub open spec fn step(self, generated: Result<Seq<char>, Seq<char>>) -> (
        AnalysisRunView,
        AnalysisStepView,
    ) {
        let total = question_count(self.request);
        let n = self.analyses.len();
        if n < total {
            let analysis = question_result(
                self.request.question_answers@[n as int],
                generated,
            );
            let after = AnalysisRunView { analyses: self.analyses.push(analysis), ..self };
            (
                after,
                AnalysisStepView {
                    events: seq![
                        completed_progress(n + 1, total, analysis),
                        after.next_progress(),
                    ],
                    action: AnalysisActionView::Ask(after.next_generation()),
                },
            )
        } else {
            let result = overall_result_of(self.analyses, self.request.session_id@, generated);
            (
                self,
                AnalysisStepView {
                    events: seq![result_progress(result)],
                    action: AnalysisActionView::Done(result),
                },
            )
        }
    }
}

/// The analysis of an interview: question by question, and then as a whole.
#[derive(Debug)]
pub struct AnalysisRun {
    request: InterviewAnalysisRequest,
    analyses: Vec<QuestionAnalysis>,
}

impl AnalysisRun {
    pub closed spec fn view(&self) -> AnalysisRunView {
        AnalysisRunView { request: self.request, analyses: analysis_views(self.analyses@) }
    }

    fn total(&self) -> (r: usize)
        ensures
            r == question_count(self@.request),
            r <= self.request.question_answers@.len(),
    {
        let questions: &[WireQuestionAnswer] = questions_to_analyze(
            &self.request,
            MAX_QUESTIONS_TO_ANALYZE,
        );
        questions.len()
    }

    fn next(&self) -> (r: (Generation, AnalysisProgressEvent))
        requires
            self@.wf(),
        ensures
            r.0@ == self@.next_generation(),
            r.1@ == self@.next_progress(),
    {
        let total: usize = self.total();
        let n: usize = self.analyses.len();
        if n < total {
            (
                question_generation(&self.request.question_answers[n], &self.request),
                plain(
                    "question",
                    counted("Analyzing question ", n as u64 + 1, total as u64, "..."),
                ),
            )
        } else {
            (
                overall_generation(&self.analyses, &self.request),
                plain("overall", "Generating overall assessment...".to_owned()),
            )
        }
    }

    /// Begins the analysis of an interview.
    pub fn start(request: InterviewAnalysisRequest) -> (r: (AnalysisRun, AnalysisStep))
        ensures
            r.0@ == (AnalysisRunView { request, analyses: Seq::empty() }),
            r.0@.wf(),
            r.1@ == r.0@.first_step(),
    {
        let run = AnalysisRun { request, analyses: Vec::new() };
        proof {
            assert(run@.analyses =~= Seq::empty());
        }
        let total: usize = run.total();
        let (generation, report) = run.next();
        let mut retrieved: String = "Retrieved context for ".to_owned();
        let n: String = decimal_text(total as u64);
        retrieved.append(n.as_str());
        retrieved.append(" questions.");
        let mut events: Vec<AnalysisProgressEvent> = Vec::new();
        events.push(plain("transcript", "Processing transcript...".to_owned()));
        events.push(plain("retrieval", retrieved));
        events.push(report);
        if total == 0 {
            let result: OverallInterviewAnalysis = finalize_empty(run.request.session_id.as_str());
            let ghost shown = result@;
            events.push(
                AnalysisProgressEvent {
                    stage: "complete".to_owned(),
                    detail: "Analysis complete.".to_owned(),
                    question_analysis: None,
                    result: Some(result.copy()),
                },
            );
            proof {
                assert(progress_views(events@) =~= run@.first_step().events);
            }
            let step = AnalysisStep { events, action: AnalysisAction::Done(result) };
            (run, step)
        } else {
            proof {
                assert(progress_views(events@) =~= run@.first_step().events);
            }
            let step = AnalysisStep { events, action: AnalysisAction::Ask(generation) };
            (run, step)
        }
    }

    /// Takes what the model said, and goes on.
    pub fn step(&mut self, generated: Result<String, String>) -> (r: AnalysisStep)
        requires
            old(self)@.wf(),
        ensures
            (final(self)@, r@) == old(self)@.step(text_result(generated)),
            final(self)@.wf(),
    {
        let total: usize = self.total();
        let n: usize = self.analyses.len();
        let mut events: Vec<AnalysisProgressEvent> = Vec::new();
        if n < total {
            let analysis: QuestionAnalysis = question_analysis_of(
                &self.request.question_answers[n],
                generated,
            );
            let ghost before = self@.analyses;
            events.push(
                AnalysisProgressEvent {
                    stage: "question_complete".to_owned(),
                    detail: counted("Completed question ", n as u64 + 1, total as u64, "."),
                    question_analysis: Some(analysis.copy()),
                    result: None,
                },
            );
            let ghost shown = analysis@;
            self.analyses.push(analysis);
            proof {
                assert(self@.analyses =~= before.push(shown));
            }
            let (generation, report) = self.next();
            events.push(report);
            proof {
                assert(progress_views(events@) =~= old(self)@.step(
                    text_result(generated),
                ).1.events);
            }
            AnalysisStep { events, action: AnalysisAction::Ask(generation) }
        } else {
            let result: OverallInterviewAnalysis = finalize(
                &self.analyses,
                self.request.session_id.as_str(),
                generated,
            );
            events.push(
                AnalysisProgressEvent {
                    stage: "complete".to_owned(),
                    detail: "Analysis complete.".to_owned(),
                    question_analysis: None,
                    result: Some(result.copy()),
                },
            );
            proof {
                assert(progress_views(events@) =~= old(self)@.step(
                    text_result(generated),
                ).1.events);
            }
            AnalysisStep { events, action: AnalysisAction::Done(result) }
        }
    }
}

/// The analysis of an interview after the model has answered some times.
pub open spec fn run_after(
    request: InterviewAnalysisRequest,
    answers: Seq<Result<Seq<char>, Seq<char>>>,
) -> AnalysisRunView
    decreases answers.len(),
{
    if answers.len() == 0 {
        AnalysisRunView { request, analyses: Seq::empty() }
    } else {
        run_after(request, answers.drop_last()).step(answers.last()).0
    }
}

/// The first answers of the model are taken for the questions, one for each, in
/// their order, and whatever they hold; no more questions are analysed than
/// fit.
pub proof fn every_question_is_analysed_once(
    request: InterviewAnalysisRequest,
    answers: Seq<Result<Seq<char>, Seq<char>>>,
)
    ensures
        ({
            let run = run_after(request, answers);
            &&& run.request == request
            &&& run.wf()
            &&& run.analyses.len() == if answers.len() < question_count(request) {
                answers.len()
            } else {
                question_count(request)
            }
            &&& forall|i: int|
                0 <= i < run.analyses.len() ==> #[trigger] run.analyses[i] == question_result(
                    request.question_answers@[i],
                    answers[i],
                )
        }),
    decreases answers.len(),
{
    if answers.len() > 0 {
        every_question_is_analysed_once(request, answers.drop_last());
        let before = run_after(request, answers.drop_last());
        let run = run_after(request, answers);
        assert forall|i: int| 0 <= i < run.analyses.len() implies #[trigger] run.analyses[i]
            == question_result(request.question_answers@[i], answers[i]) by {
            if i < before.analyses.len() {
                assert(run.analyses[i] == before.analyses[i]);
                assert(answers.drop_last()[i] == answers[i]);
            }
        }
    }
}

/// The analysis of an interview with questions is done after one answer for
/// each question and one more, and not before; its result holds the analyses of
/// the questions, whatever the model said of the whole.
pub proof fn the_analysis_ends(
    request: InterviewAnalysisRequest,
    answers: Seq<Result<Seq<char>, Seq<char>>>,
    last: Result<Seq<char>, Seq<char>>,
)
    requires
        0 < question_count(request),
    ensures
        ({
            let run = run_after(request, answers);
            let step = run.step(last).1;
            &&& (step.action is Done) == (question_count(request) <= answers.len())
            &&& step.action is Done ==> step.action->Done_0.questions == run.analyses
        }),
{
    every_question_is_analysed_once(request, answers);
}

/// A request goes to its own provider, with its own key and the messages, the
/// temperature and the limit that were given.
pub proof fn a_request_goes_to_its_provider(
    names: anthropic::ModelNames,
    api_key: Seq<char>,
    asked: GenerationView,
    stream: bool,
)
    ensures
        ({
            let sent = request_to(LlmProvider::OpenAi, names, api_key, asked, stream);
            &&& starts_with(sent.url, "https://api.openai.com/"@)
            &&& sent.headers == seq![("Authorization"@, "Bearer "@ + api_key)]
            &&& sent.body == openai::request_body(
                "gpt-4o-mini"@,
                asked.messages,
                asked.temperature,
                asked.max_tokens,
                stream,
            )
        }),
        ({
            let sent = request_to(LlmProvider::Anthropic, names, api_key, asked, stream);
            &&& starts_with(sent.url, "https://api.anthropic.com/"@)
            &&& sent.headers[0] == ("x-api-key"@, api_key)
            &&& sent.body == anthropic::request_body(
                names.default_model@,
                names,
                asked.messages,
                asked.temperature,
                asked.max_tokens,
                stream,
            )
        }),
        ({
            let sent = request_to(LlmProvider::Gemini, names, api_key, asked, stream);
            &&& starts_with(sent.url, "https://generativelanguage.googleapis.com/"@)
            &&& ends_with(sent.url, "key="@ + api_key)
            &&& stands_in(sent.url, ":streamGenerateContent?alt=sse"@) || !stream
            &&& stands_in(sent.url, ":generateContent?"@) || stream
            &&& sent.headers.len() == 0
            &&& sent.body == gemini::instructions_moved(
                gemini::nested_body(asked.messages, asked.temperature, asked.max_tokens),
            )
        }),
{
    reveal_strlit("https://api.openai.com/");
    reveal_strlit("https://api.openai.com/v1/chat/completions");
    reveal_strlit("https://api.anthropic.com/");
    reveal_strlit("https://api.anthropic.com/v1/messages");
    reveal_strlit("https://generativelanguage.googleapis.com/");
    reveal_strlit("https://generativelanguage.googleapis.com/v1beta/models/");
    reveal_strlit(":streamGenerateContent?alt=sse&key=");
    reveal_strlit(":streamGenerateContent?alt=sse");
    reveal_strlit(":generateContent?key=");
    reveal_strlit(":generateContent?");
    reveal_strlit("key=");
    let o = openai::CHAT_COMPLETIONS_URL@;
    let a = anthropic::MESSAGES_URL@;
    assert(o.subrange(0, 23) =~= "https://api.openai.com/"@);
    assert(a.subrange(0, 26) =~= "https://api.anthropic.com/"@);
    let g = request_to(LlmProvider::Gemini, names, api_key, asked, stream).url;
    let root = "https://generativelanguage.googleapis.com/"@;
    assert(g.subrange(0, root.len() as int) =~= root);
    let end = "key="@ + api_key;
    assert(g.subrange(g.len() - end.len(), g.len() as int) =~= end);
    let lead = "https://generativelanguage.googleapis.com/v1beta/models/"@ + gemini::model_name(
        LlmProvider::Gemini.standard_model(names),
    );
    if stream {
        let part = ":streamGenerateContent?alt=sse"@;
        assert(g =~= lead + part + g.skip((lead.len() + part.len()) as int));
    } else {
        let part = ":generateContent?"@;
        assert(g =~= lead + part + g.skip((lead.len() + part.len()) as int));
    }
}

/// The provider that is named is asked, and the standard one where none is, or
/// none that there is.
pub proof fn the_named_provider_is_asked(name: Option<Seq<char>>)
    ensures
        name == Some("openai"@) <==> provider_or_default(name) == LlmProvider::OpenAi,
        name == Some("gemini"@) <==> provider_or_default(name) == LlmProvider::Gemini,
        name is None ==> provider_or_default(name) == LlmProvider::Anthropic,
{
    reveal_strlit("openai");
    reveal_strlit("gemini");
    reveal_strlit("anthropic");
    assert("openai"@[0] != "gemini"@[0]);
    assert("anthropic"@.len() == 9 && "openai"@.len() == 6 && "gemini"@.len() == 6);
}

/// The parts of an answer that have a text are kept, in order, and no others.
pub proof fn present_texts_are_kept_in_order(items: Seq<Option<Seq<char>>>)
    ensures
        present(items) == items.filter(|t: Option<Seq<char>>| t is Some).map_values(
            |t: Option<Seq<char>>| t->Some_0,
        ),
    decreases items.len(),
{
    reveal(Seq::filter);
    let is_there = |t: Option<Seq<char>>| t is Some;
    let text = |t: Option<Seq<char>>| t->Some_0;
    if items.len() > 0 {
        present_texts_are_kept_in_order(items.drop_last());
    }
    assert(present(items) =~= items.filter(is_there).map_values(text));
}

/// What is analysed is the interview itself: the questions are asked about in
/// order, each with its own words and answer, and the whole last, after every
/// question; the model is told what it is, and its answer to each question
/// becomes the analysis of that question.
pub proof fn the_interview_is_analysed_in_order(
    request: InterviewAnalysisRequest,
    answers: Seq<Result<Seq<char>, Seq<char>>>,
)
    requires
        answers.len() <= question_count(request),
    ensures
        ({
            let run = run_after(request, answers);
            let asked = run.next_generation();
            let n = answers.len() as int;
            &&& asked.messages.len() == 2
            &&& asked.messages[0].role == "system"@
            &&& asked.messages[1].role == "user"@
            &&& n < question_count(request) ==> stands_in(
                asked.messages[1].content,
                request.question_answers@[n].question@,
            )
            &&& n < question_count(request) ==> forall|raw: Seq<char>, object: JsonView|
                #![trigger object_in(raw), analysis_in(object, request.question_answers@[n])]
                object_in(raw) == Ok::<JsonView, Seq<char>>(object) ==> run.step(
                    Ok(raw),
                ).0.analyses == run.analyses.push(
                    analysis_in(object, request.question_answers@[n]),
                )
            &&& n < question_count(request) ==> forall|e: Seq<char>|
                (#[trigger] run.step(Err(e))).0.analyses.last().failed
            &&& n == question_count(request) ==> run.analyses.len() == n
        }),
{
    every_question_is_analysed_once(request, answers);
    let run = run_after(request, answers);
    let n = answers.len() as int;
    if n < question_count(request) {
        let qa = request.question_answers@[n];
        a_question_is_asked_with_all_that_is_known(qa, request_header(request), 0);
        let text = question_text(qa, request_header(request));
        let line = "\n\nINTERVIEW QUESTION\n"@ + qa.question@;
        the_middle_stands_in("\n\nINTERVIEW QUESTION\n"@, qa.question@, Seq::empty());
        standing_in_passes_on(text, line, qa.question@);
    }
}

/// Where the whole could not be analysed, the analyses of the questions are shown
/// with their average in every dimension, as a partial result, and the reason is
/// told.
pub proof fn without_the_whole_the_questions_are_shown(
    analyses: Seq<QuestionAnalysisView>,
    session_id: Seq<char>,
    error: Seq<char>,
)
    ensures
        ({
            let shown = overall_result_of(analyses, session_id, Err(error));
            &&& shown.questions == analyses
            &&& shown.session_id == session_id
            &&& shown.status == "partial"@
            &&& shown.overall_score == average_score(analyses)
            &&& shown.technical_score == shown.overall_score
            &&& shown.communication_score == shown.overall_score
            &&& shown.practical_experience_score == shown.overall_score
            &&& shown.confidence_score == shown.overall_score
            &&& stands_in(shown.message, error)
        }),
{
    average_is_in_range(analyses);
    the_middle_stands_in(
        "Overall analysis could not be generated ("@,
        error,
        "); showing per-question results with an approximate average score."@,
    );
}

/// What the contracts say of a value is said of its fields, each under its own name.
pub proof fn each_field_is_seen_as_it_is(generation: Generation)
    ensures
        generation@.messages == chat_views(generation.messages@),
        generation@.temperature == generation.temperature@,
        generation@.max_tokens == generation.max_tokens,
{
}

/// An agent's request goes to its own provider, with its own key, the messages and
/// the tools, and its answer is streamed.
pub proof fn an_agents_request_goes_to_its_provider(
    names: anthropic::ModelNames,
    api_key: Seq<char>,
    asked: GenerationView,
    messages: Seq<AgentMessageView>,
    tools: Seq<ToolView>,
    provider: LlmProvider,
)
    ensures
        ({
            let sent = agent_request_to(provider, names, api_key, messages, tools);
            let chat = request_to(provider, names, api_key, asked, true);
            &&& sent.url == chat.url
            &&& sent.headers == chat.headers
            &&& provider == LlmProvider::OpenAi ==> sent.body == openai::agent_body(
                "gpt-4o-mini"@,
                messages,
                tools,
            )
            &&& provider == LlmProvider::Anthropic ==> sent.body == anthropic::agent_body(
                names.default_model@,
                names,
                messages,
                tools,
            )
            &&& provider == LlmProvider::Gemini ==> sent.body == gemini::agent_body(messages, tools)
        }),
{
}

/// An answer is read as its own provider writes it: OpenAI line by line, the others
/// frame by frame.
pub proof fn an_answer_is_read_as_its_provider_writes(
    provider: LlmProvider,
    buffer: Seq<char>,
    answer: JsonView,
)
    ensures
        provider == LlmProvider::OpenAi ==> {
            &&& deltas_in(provider, buffer) == present(openai::deltas(line_data_in(buffer)))
            &&& rest_of(provider, buffer) == after_lines(buffer)
            &&& answer_text(provider, answer) == openai::choice_text(answer, "message"@)
            &&& display_name(provider) == "OpenAI"@
            &&& missing_key(provider)
                == "No API key configured for "@ + "openai"@ + ". Add one in Settings."@
        },
        provider == LlmProvider::Anthropic ==> {
            &&& deltas_in(provider, buffer) == anthropic::deltas(data_in(buffer))
            &&& rest_of(provider, buffer) == after_frames(buffer)
            &&& answer_text(provider, answer) == anthropic::answer_text(answer)
            &&& display_name(provider) == "Anthropic"@
            &&& missing_key(provider)
                == "No API key configured for "@ + "anthropic"@ + ". Add one in Settings."@
        },
        provider == LlmProvider::Gemini ==> {
            &&& deltas_in(provider, buffer) == gemini::deltas(data_in(buffer))
            &&& rest_of(provider, buffer) == after_frames(buffer)
            &&& answer_text(provider, answer) == gemini::answer_text(answer)
            &&& display_name(provider) == "Gemini"@
            &&& missing_key(provider)
                == "No API key configured for "@ + "gemini"@ + ". Add one in Settings."@
        },
{
}

/// There is nothing to analyse exactly where neither document has anything but
/// whitespace.
pub proof fn blank_documents_are_none(request: SetupAnalysisRequest)
    ensures
        no_documents(request) <==> (request.resume_text matches Some(t) ==> blank_text(t@)) && (
        request.job_description_text matches Some(t) ==> blank_text(t@)),
{
    if let Some(t) = request.resume_text {
        trimmed_to_nothing(t@);
    }
    if let Some(t) = request.job_description_text {
        trimmed_to_nothing(t@);
    }
}

/// Whether a text is nothing but whitespace.
pub open spec fn blank_text(s: Seq<char>) -> bool {
    forall|i: int| 0 <= i < s.len() ==> is_whitespace(#[trigger] s[i])
}

/// An interview without questions is told so at once and the model is not asked;
/// any other begins with its first question.
pub proof fn an_analysis_begins_with_the_first_question(run: AnalysisRunView)
    requires
        run.analyses.len() == 0,
    ensures
        ({
            let (events, action) = (run.first_step().events, run.first_step().action);
            let request = run.request;
            &&& events[0].stage == "transcript"@
            &&& events[1].stage == "retrieval"@
            &&& request.question_answers@.len() == 0 ==> match action {
                AnalysisActionView::Done(result) => {
                    &&& result.session_id == request.session_id@
                    &&& result.status == "completed"@
                    &&& result.questions.len() == 0
                    &&& result.overall_score == 0
                    &&& events.last().result == Some(result)
                },
                _ => false,
            }
            &&& request.question_answers@.len() > 0 ==> action == AnalysisActionView::Ask(
                analysis_generation(
                    question_text(request.question_answers@[0], request_header(request)),
                ),
            )
        }),
{
}

/// A question that could not be analysed is told with the reason, whether the
/// model could not be asked or its answer could not be read.
pub proof fn a_failure_is_told_with_its_reason(
    qa: WireQuestionAnswer,
    raw: Seq<char>,
    error: Seq<char>,
    number: nat,
    total: nat,
    analysis: QuestionAnalysisView,
)
    ensures
        question_result(qa, Err(error)).failed,
        question_result(qa, Err(error)).question == qa.question@,
        question_result(qa, Err(error)).error_message == Some("LLM request failed: "@ + error),
        object_in(raw) == Err::<JsonView, Seq<char>>(error) ==> question_result(
            qa,
            Ok(raw),
        ).failed && question_result(qa, Ok(raw)).error_message == Some(error),
        no_note_summary(error).message == "AI summary could not be generated ("@ + error + ")."@,
        no_note_summary(error).summary.len() == 0 && no_note_summary(error).tasks.len() == 0,
        question_progress(number, total).detail == "Analyzing question "@ + decimal(number)
            + " of "@ + decimal(total) + "..."@,
        completed_progress(number, total, analysis).detail == "Completed question "@ + decimal(
            number,
        ) + " of "@ + decimal(total) + "."@,
        completed_progress(number, total, analysis).question_analysis == Some(analysis),
{
}

} // verus!
