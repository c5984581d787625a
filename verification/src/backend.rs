//! What the assistant is asked, and what it answers, outside of live turns.
//!
//! Scores are held as the bits of a double together with the two-decimal
//! notation in which they are shown.
use vstd::prelude::*;
use vstd::string::*;

use crate::json::opt_view;
use crate::text::{copy_strings, views};

verus! {

/// One earlier question and its answer.
#[derive(Debug, Clone)]
pub struct ConversationTurn {
    pub question: String,
    pub answer: String,
}

/// The view of an exchange.
pub struct ExchangeView {
    pub question: Seq<char>,
    pub answer: Seq<char>,
}

impl ConversationTurn {
    pub open spec fn view(&self) -> ExchangeView {
        ExchangeView { question: self.question@, answer: self.answer@ }
    }
}

/// The views of a sequence of exchanges.
pub open spec fn exchange_views(turns: Seq<ConversationTurn>) -> Seq<ExchangeView> {
    turns.map_values(|t: ConversationTurn| t@)
}

/// A passage of the user's documents.
#[derive(Debug, Clone)]
pub struct AskRetrievedChunk {
    pub text: String,
    pub source_filename: String,
    pub document_type: String,
    pub score: u64,
}

/// The texts of passages.
pub open spec fn passage_texts(chunks: Seq<AskRetrievedChunk>) -> Seq<Seq<char>> {
    chunks.map_values(|c: AskRetrievedChunk| c.text@)
}

/// A question for the assistant, with everything that shapes the answer.
#[derive(Debug, Clone)]
pub struct AskRequest {
    pub question: String,
    pub conversation_history: Vec<ConversationTurn>,
    pub retrieved_context: Vec<AskRetrievedChunk>,
    pub candidate_context: Option<String>,
    pub role: Option<String>,
    pub job_description: Option<String>,
    pub answer_length: String,
    pub response_style: String,
    pub english_level: String,
    pub humanization: String,
    pub llm_provider: Option<String>,
}

/// How well a passage fits: the bits of a double, and the double with two
/// decimals.
#[derive(Debug, Clone, PartialEq, Eq)]
pub struct Score {
    pub bits: u64,
    pub shown: String,
}

/// The view of a score.
pub struct ScoreView {
    pub bits: u64,
    pub shown: Seq<char>,
}

impl Score {
    pub open spec fn view(&self) -> ScoreView {
        ScoreView { bits: self.bits, shown: self.shown@ }
    }

    /// A score equal to this one.
    pub fn copy(&self) -> (r: Score)
        ensures
            r@ == self@,
    {
        Score { bits: self.bits, shown: self.shown.clone() }
    }
}

/// A passage of the candidate's documents.
#[derive(Debug, Clone)]
pub struct WireRetrievedChunk {
    pub text: String,
    pub source_filename: String,
    pub document_type: String,
    pub score: Score,
}

/// A question of an interview, its answer, and what was found on it.
#[derive(Debug, Clone)]
pub struct WireQuestionAnswer {
    pub question_id: String,
    pub question: String,
    pub candidate_answer: String,
    pub timestamp: String,
    pub retrieved_context: Vec<WireRetrievedChunk>,
}

/// A completed interview.
#[derive(Debug, Clone)]
pub struct InterviewAnalysisRequest {
    pub session_id: String,
    pub role: Option<String>,
    pub company: Option<String>,
    pub job_description: Option<String>,
    pub question_answers: Vec<WireQuestionAnswer>,
}

/// Where a passage came from.
#[derive(Debug, Clone)]
pub struct RetrievedSourceRef {
    pub filename: String,
    pub document_type: String,
    pub score: Score,
    pub text: String,
}

/// The view of a passage's origin.
pub struct SourceView {
    pub filename: Seq<char>,
    pub document_type: Seq<char>,
    pub score: ScoreView,
    pub text: Seq<char>,
}

impl RetrievedSourceRef {
    pub open spec fn view(&self) -> SourceView {
        SourceView {
            filename: self.filename@,
            document_type: self.document_type@,
            score: self.score@,
            text: self.text@,
        }
    }

    /// An origin equal to this one.
    pub fn copy(&self) -> (r: RetrievedSourceRef)
        ensures
            r@ == self@,
    {
        RetrievedSourceRef {
            filename: self.filename.clone(),
            document_type: self.document_type.clone(),
            score: self.score.copy(),
            text: self.text.clone(),
        }
    }
}

/// The views of a sequence of origins.
pub open spec fn source_views(sources: Seq<RetrievedSourceRef>) -> Seq<SourceView> {
    sources.map_values(|s: RetrievedSourceRef| s@)
}

/// What was made of one question.
#[derive(Debug, Clone)]
pub struct QuestionAnalysis {
    pub question_id: String,
    pub question: String,
    pub candidate_answer: String,
    pub assessment: String,
    pub score: i32,
    pub strengths: Vec<String>,
    pub issues: Vec<String>,
    pub improved_answer: String,
    pub retrieved_sources: Vec<RetrievedSourceRef>,
    pub failed: bool,
    pub error_message: Option<String>,
}

/// The view of what was made of one question.
pub struct QuestionAnalysisView {
    pub question_id: Seq<char>,
    pub question: Seq<char>,
    pub candidate_answer: Seq<char>,
    pub assessment: Seq<char>,
    pub score: i32,
    pub strengths: Seq<Seq<char>>,
    pub issues: Seq<Seq<char>>,
    pub improved_answer: Seq<char>,
    pub retrieved_sources: Seq<SourceView>,
    pub failed: bool,
    pub error_message: Option<Seq<char>>,
}

impl QuestionAnalysis {
    pub open spec fn view(&self) -> QuestionAnalysisView {
        QuestionAnalysisView {
            question_id: self.question_id@,
            question: self.question@,
            candidate_answer: self.candidate_answer@,
            assessment: self.assessment@,
            score: self.score,
            strengths: views(self.strengths@),
            issues: views(self.issues@),
            improved_answer: self.improved_answer@,
            retrieved_sources: source_views(self.retrieved_sources@),
            failed: self.failed,
            error_message: opt_view(self.error_message),
        }
    }

    /// An analysis equal to this one.
    pub fn copy(&self) -> (r: QuestionAnalysis)
        ensures
            r@ == self@,
    {
        let mut sources: Vec<RetrievedSourceRef> = Vec::new();
        let mut i: usize = 0;
        while i < self.retrieved_sources.len()
            invariant
                i <= self.retrieved_sources@.len(),
                sources@.len() == i,
                forall|j: int|
                    0 <= j < i ==> (#[trigger] sources@[j])@ == self.retrieved_sources@[j]@,
            decreases self.retrieved_sources@.len() - i,
        {
            sources.push(self.retrieved_sources[i].copy());
            i += 1;
        }
        proof {
            assert(source_views(sources@) =~= source_views(self.retrieved_sources@));
        }
        QuestionAnalysis {
            question_id: self.question_id.clone(),
            question: self.question.clone(),
            candidate_answer: self.candidate_answer.clone(),
            assessment: self.assessment.clone(),
            score: self.score,
            strengths: copy_strings(&self.strengths),
            issues: copy_strings(&self.issues),
            improved_answer: self.improved_answer.clone(),
            retrieved_sources: sources,
            failed: self.failed,
            error_message: self.error_message.clone(),
        }
    }
}

/// Analyses equal to some others.
pub fn copy_analyses(analyses: &Vec<QuestionAnalysis>) -> (r: Vec<QuestionAnalysis>)
    ensures
        analysis_views(r@) == analysis_views(analyses@),
{
    let mut out: Vec<QuestionAnalysis> = Vec::new();
    let mut i: usize = 0;
    while i < analyses.len()
        invariant
            i <= analyses@.len(),
            out@.len() == i,
            forall|j: int| 0 <= j < i ==> (#[trigger] out@[j])@ == analyses@[j]@,
        decreases analyses@.len() - i,
    {
        out.push(analyses[i].copy());
        i += 1;
    }
    proof {
        assert(analysis_views(out@) =~= analysis_views(analyses@));
    }
    out
}

/// The views of a sequence of analyses.
pub open spec fn analysis_views(analyses: Seq<QuestionAnalysis>) -> Seq<QuestionAnalysisView> {
    analyses.map_values(|a: QuestionAnalysis| a@)
}

/// What was made of a whole interview.
#[derive(Debug, Clone)]
pub struct OverallInterviewAnalysis {
    pub session_id: String,
    pub status: String,
    pub overall_score: i32,
    pub technical_score: i32,
    pub communication_score: i32,
    pub practical_experience_score: i32,
    pub confidence_score: i32,
    pub summary: String,
    pub strengths: Vec<String>,
    pub weaknesses: Vec<String>,
    pub recommendations: Vec<String>,
    pub questions: Vec<QuestionAnalysis>,
    pub disclaimer: String,
    pub message: String,
}

/// The view of what was made of a whole interview.
pub struct OverallView {
    pub session_id: Seq<char>,
    pub status: Seq<char>,
    pub overall_score: i32,
    pub technical_score: i32,
    pub communication_score: i32,
    pub practical_experience_score: i32,
    pub confidence_score: i32,
    pub summary: Seq<char>,
    pub strengths: Seq<Seq<char>>,
    pub weaknesses: Seq<Seq<char>>,
    pub recommendations: Seq<Seq<char>>,
    pub questions: Seq<QuestionAnalysisView>,
    pub disclaimer: Seq<char>,
    pub message: Seq<char>,
}

impl OverallInterviewAnalysis {
    pub open spec fn view(&self) -> OverallView {
        OverallView {
            session_id: self.session_id@,
            status: self.status@,
            overall_score: self.overall_score,
            technical_score: self.technical_score,
            communication_score: self.communication_score,
            practical_experience_score: self.practical_experience_score,
            confidence_score: self.confidence_score,
            summary: self.summary@,
            strengths: views(self.strengths@),
            weaknesses: views(self.weaknesses@),
            recommendations: views(self.recommendations@),
            questions: analysis_views(self.questions@),
            disclaimer: self.disclaimer@,
            message: self.message@,
        }
    }

    /// An analysis equal to this one.
    pub fn copy(&self) -> (r: OverallInterviewAnalysis)
        ensures
            r@ == self@,
    {
        OverallInterviewAnalysis {
            session_id: self.session_id.clone(),
            status: self.status.clone(),
            overall_score: self.overall_score,
            technical_score: self.technical_score,
            communication_score: self.communication_score,
            practical_experience_score: self.practical_experience_score,
            confidence_score: self.confidence_score,
            summary: self.summary.clone(),
            strengths: copy_strings(&self.strengths),
            weaknesses: copy_strings(&self.weaknesses),
            recommendations: copy_strings(&self.recommendations),
            questions: copy_analyses(&self.questions),
            disclaimer: self.disclaimer.clone(),
            message: self.message.clone(),
        }
    }
}

/// How far the analysis of an interview has come.
#[derive(Debug, Clone)]
pub struct AnalysisProgressEvent {
    pub stage: String,
    pub detail: String,
    pub question_analysis: Option<QuestionAnalysis>,
    pub result: Option<OverallInterviewAnalysis>,
}

/// The view of how far an analysis has come.
pub struct ProgressView {
    pub stage: Seq<char>,
    pub detail: Seq<char>,
    pub question_analysis: Option<QuestionAnalysisView>,
    pub result: Option<OverallView>,
}

impl AnalysisProgressEvent {
    pub open spec fn view(&self) -> ProgressView {
        ProgressView {
            stage: self.stage@,
            detail: self.detail@,
            question_analysis: match self.question_analysis {
                Some(a) => Some(a@),
                None => None,
            },
            result: match self.result {
                Some(r) => Some(r@),
                None => None,
            },
        }
    }
}

/// The views of a sequence of reports.
pub open spec fn progress_views(events: Seq<AnalysisProgressEvent>) -> Seq<ProgressView> {
    events.map_values(|e: AnalysisProgressEvent| e@)
}

/// What the user prepares an interview with.
#[derive(Debug, Clone)]
pub struct SetupAnalysisRequest {
    pub resume_text: Option<String>,
    pub job_description_text: Option<String>,
}

/// What was found in a resume and a job description.
#[derive(Debug, Clone, PartialEq, Eq)]
pub struct SetupAnalysisResponse {
    pub job_title: Option<String>,
    pub company: Option<String>,
    pub seniority: Option<String>,
    pub employment_type: Option<String>,
    pub key_responsibilities: Vec<String>,
    pub required_skills: Vec<String>,
    pub technologies: Vec<String>,
    pub focus_areas: Vec<String>,
    pub candidate_highlights: Vec<String>,
}

/// The view of what was found.
pub struct SetupView {
    pub job_title: Option<Seq<char>>,
    pub company: Option<Seq<char>>,
    pub seniority: Option<Seq<char>>,
    pub employment_type: Option<Seq<char>>,
    pub key_responsibilities: Seq<Seq<char>>,
    pub required_skills: Seq<Seq<char>>,
    pub technologies: Seq<Seq<char>>,
    pub focus_areas: Seq<Seq<char>>,
    pub candidate_highlights: Seq<Seq<char>>,
}

impl SetupAnalysisResponse {
    pub open spec fn view(&self) -> SetupView {
        SetupView {
            job_title: opt_view(self.job_title),
            company: opt_view(self.company),
            seniority: opt_view(self.seniority),
            employment_type: opt_view(self.employment_type),
            key_responsibilities: views(self.key_responsibilities@),
            required_skills: views(self.required_skills@),
            technologies: views(self.technologies@),
            focus_areas: views(self.focus_areas@),
            candidate_highlights: views(self.candidate_highlights@),
        }
    }
}

/// Nothing was found.
pub open spec fn nothing_found() -> SetupView {
    SetupView {
        job_title: None,
        company: None,
        seniority: None,
        employment_type: None,
        key_responsibilities: Seq::empty(),
        required_skills: Seq::empty(),
        technologies: Seq::empty(),
        focus_areas: Seq::empty(),
        candidate_highlights: Seq::empty(),
    }
}

impl Default for SetupAnalysisResponse {
    fn default() -> (r: SetupAnalysisResponse)
        ensures
            r@ == nothing_found(),
    {
        let r = SetupAnalysisResponse {
            job_title: None,
            company: None,
            seniority: None,
            employment_type: None,
            key_responsibilities: Vec::new(),
            required_skills: Vec::new(),
            technologies: Vec::new(),
            focus_areas: Vec::new(),
            candidate_highlights: Vec::new(),
        };
        proof {
            let empty = Seq::<Seq<char>>::empty();
            assert(r@.key_responsibilities =~= empty);
            assert(r@.required_skills =~= empty);
            assert(r@.technologies =~= empty);
            assert(r@.focus_areas =~= empty);
            assert(r@.candidate_highlights =~= empty);
        }
        r
    }
}

/// A question in a meeting.
#[derive(Debug, Clone)]
pub struct MeetingAskRequest {
    pub question: String,
    pub conversation_history: Vec<ConversationTurn>,
    pub retrieved_context: Vec<AskRetrievedChunk>,
    pub meeting_title: Option<String>,
    pub participants: Option<String>,
    pub answer_length: String,
    pub response_style: String,
    pub humanization: String,
    pub llm_provider: Option<String>,
}

/// Something that was said in a meeting.
#[derive(Debug, Clone)]
pub struct MeetingTurnIn {
    pub speaker: String,
    pub text: String,
}

/// A meeting to summarise.
#[derive(Debug, Clone)]
pub struct MeetingSummaryRequest {
    pub turns: Vec<MeetingTurnIn>,
    pub key_points: Vec<String>,
    pub decisions: Vec<String>,
    pub action_items: Vec<String>,
    pub meeting_title: Option<String>,
    pub participants: Option<String>,
}

/// The summary of a meeting.
#[derive(Debug, Clone)]
pub struct MeetingSummary {
    pub summary: String,
    pub key_points: Vec<String>,
    pub decisions: Vec<String>,
    pub action_items: Vec<String>,
    pub next_steps: Vec<String>,
    pub message: String,
}

/// The view of the summary of a meeting.
pub struct MeetingSummaryView {
    pub summary: Seq<char>,
    pub key_points: Seq<Seq<char>>,
    pub decisions: Seq<Seq<char>>,
    pub action_items: Seq<Seq<char>>,
    pub next_steps: Seq<Seq<char>>,
    pub message: Seq<char>,
}

impl MeetingSummary {
    pub open spec fn view(&self) -> MeetingSummaryView {
        MeetingSummaryView {
            summary: self.summary@,
            key_points: views(self.key_points@),
            decisions: views(self.decisions@),
            action_items: views(self.action_items@),
            next_steps: views(self.next_steps@),
            message: self.message@,
        }
    }
}

/// A note as background of a question.
#[derive(Debug, Clone)]
pub struct NoteContext {
    pub title: Option<String>,
    pub body: String,
}

/// A question about notes.
#[derive(Debug, Clone)]
pub struct NotesAskRequest {
    pub question: String,
    pub notes: Vec<NoteContext>,
}

/// A note to summarise.
#[derive(Debug, Clone)]
pub struct NotesSummaryRequest {
    pub title: Option<String>,
    pub body: String,
}

/// The summary of a note.
#[derive(Debug, Clone)]
pub struct NoteSummary {
    pub summary: String,
    pub tasks: Vec<String>,
    pub decisions: Vec<String>,
    pub key_points: Vec<String>,
    pub message: String,
}

/// The view of the summary of a note.
pub struct NoteSummaryView {
    pub summary: Seq<char>,
    pub tasks: Seq<Seq<char>>,
    pub decisions: Seq<Seq<char>>,
    pub key_points: Seq<Seq<char>>,
    pub message: Seq<char>,
}

impl NoteSummary {
    pub open spec fn view(&self) -> NoteSummaryView {
        NoteSummaryView {
            summary: self.summary@,
            tasks: views(self.tasks@),
            decisions: views(self.decisions@),
            key_points: views(self.key_points@),
            message: self.message@,
        }
    }
}

/// What the contracts say of a value is said of its fields, each under its own name.
pub proof fn each_field_is_seen_as_it_is(
    turn: ConversationTurn,
    source: RetrievedSourceRef,
    question: QuestionAnalysis,
    overall: OverallInterviewAnalysis,
    progress: AnalysisProgressEvent,
    setup: SetupAnalysisResponse,
    meeting: MeetingSummary,
    note: NoteSummary,
)
    ensures
        turn@.question == turn.question@,
        turn@.answer == turn.answer@,
        source@.filename == source.filename@,
        source@.document_type == source.document_type@,
        source@.score == source.score@,
        source@.text == source.text@,
        question@.question_id == question.question_id@,
        question@.question == question.question@,
        question@.candidate_answer == question.candidate_answer@,
        question@.assessment == question.assessment@,
        question@.score == question.score,
        question@.strengths == views(question.strengths@),
        question@.issues == views(question.issues@),
        question@.improved_answer == question.improved_answer@,
        question@.retrieved_sources == source_views(question.retrieved_sources@),
        question@.failed == question.failed,
        question@.error_message == opt_view(question.error_message),
        overall@.session_id == overall.session_id@,
        overall@.status == overall.status@,
        overall@.overall_score == overall.overall_score,
        overall@.technical_score == overall.technical_score,
        overall@.communication_score == overall.communication_score,
        overall@.practical_experience_score == overall.practical_experience_score,
        overall@.confidence_score == overall.confidence_score,
        overall@.summary == overall.summary@,
        overall@.strengths == views(overall.strengths@),
        overall@.weaknesses == views(overall.weaknesses@),
        overall@.recommendations == views(overall.recommendations@),
        overall@.questions == analysis_views(overall.questions@),
        overall@.disclaimer == overall.disclaimer@,
        overall@.message == overall.message@,
        progress@.stage == progress.stage@,
        progress@.detail == progress.detail@,
        progress.question_analysis matches Some(v) ==> progress@.question_analysis == Some(v@),
        progress.question_analysis is None ==> progress@.question_analysis is None,
        progress.result matches Some(v) ==> progress@.result == Some(v@),
        progress.result is None ==> progress@.result is None,
        setup@.job_title == opt_view(setup.job_title),
        setup@.company == opt_view(setup.company),
        setup@.seniority == opt_view(setup.seniority),
        setup@.employment_type == opt_view(setup.employment_type),
        setup@.key_responsibilities == views(setup.key_responsibilities@),
        setup@.required_skills == views(setup.required_skills@),
        setup@.technologies == views(setup.technologies@),
        setup@.focus_areas == views(setup.focus_areas@),
        setup@.candidate_highlights == views(setup.candidate_highlights@),
        meeting@.summary == meeting.summary@,
        meeting@.key_points == views(meeting.key_points@),
        meeting@.decisions == views(meeting.decisions@),
        meeting@.action_items == views(meeting.action_items@),
        meeting@.next_steps == views(meeting.next_steps@),
        meeting@.message == meeting.message@,
        note@.summary == note.summary@,
        note@.tasks == views(note.tasks@),
        note@.decisions == views(note.decisions@),
        note@.key_points == views(note.key_points@),
        note@.message == note.message@,
{
}

} // verus!
