//! Extracting the facts of a resume and a job description.
use vstd::prelude::*;
use vstd::string::*;

use crate::backend::{nothing_found, SetupAnalysisRequest, SetupAnalysisResponse, SetupView};
use crate::json::{
    array_view, json_views, opt_view, texts_are_read_in_order, texts_of, Json, JsonView,
};
use crate::json_members::{
    a_repeated_key_cannot_be_read, field, member_views, members_in, other_members_do_not_matter,
    read_field, read_members, Field, FieldView, Member, MemberView,
};
use crate::prompts::chat::{
    braces_are_the_first_and_the_last, chat_views, cut_at_the_braces, find_first, find_last,
    first_index, last_index, ChatMessage,
};
use crate::prompts::notes::{scene_and_message, two_messages};
use crate::text::{
    from_chars, join, joined, part_stands_in_joined, stands_in, to_chars, trim, trimmed, views,
};

verus! {

pub const SYSTEM_PROMPT: &'static str = "You extract a thorough, structured summary from a candidate's resume and/or a job description, for an interview-prep tool. You are not writing anything for the interview itself — only summarizing what was given, but you should be THOROUGH: pull out every distinct responsibility, skill, technology, and qualification actually stated in the text, not just the first few. Read the whole document before answering.

Respond with ONLY a single JSON object, no prose before or after, matching exactly this shape:

{
  \"job_title\": string or null,
  \"company\": string or null,
  \"seniority\": string or null (e.g. \"Junior\", \"Mid-level\", \"Senior\", \"Lead/Staff\" — inferred from years-of-experience requirements, title, or scope of responsibility if stated),
  \"employment_type\": string or null (e.g. \"Full-time\", \"Contract\", \"Remote\", \"Hybrid\" — only if the text actually says so),
  \"key_responsibilities\": string[] (up to 12, one item per distinct duty or responsibility actually listed — do not merge multiple duties into one item, do not stop at 3-4 if more are stated),
  \"required_skills\": string[] (up to 12, every distinct skill or qualification named, including soft skills and years-of-experience requirements if stated as their own bullet),
  \"technologies\": string[] (up to 12, every specific tool, language, framework, platform, or product name mentioned — list names only, no descriptions),
  \"focus_areas\": string[] (up to 8, short phrases describing what an interviewer for this role would likely probe, derived from the responsibilities and requirements above),
  \"candidate_highlights\": string[] (up to 10, short phrases about the candidate's own relevant experience/projects/achievements from the resume — omit entirely if no resume text was given)
}

Only use information actually present in the text given to you — extract comprehensively, but never invent employers, titles, metrics, or requirements that are not in the text. If only a resume is given, leave job_title/company/seniority/employment_type/required_skills/focus_areas empty or null unless they are inferable from the resume itself. If only a job description is given, leave candidate_highlights as an empty list.";

pub const MAX_TOKENS: u32 = 1100;

/// A text under a heading, where it is not blank.
pub open spec fn section(heading: Seq<char>, text: Option<Seq<char>>) -> Seq<Seq<char>> {
    match text {
        Some(t) if trim(t).len() > 0 => seq![heading + trim(t)],
        _ => Seq::empty(),
    }
}

/// The message with the documents.
pub open spec fn documents_text(request: SetupAnalysisRequest) -> Seq<char> {
    joined(
        section("RESUME:\n"@, opt_view(request.resume_text)) + section(
            "JOB DESCRIPTION:\n"@,
            opt_view(request.job_description_text),
        ) + seq!["Return the JSON object now."@],
        "\n\n---\n\n"@,
    )
}

/// Adds a text under a heading, where it is not blank; says whether it did.
fn push_section(parts: &mut Vec<String>, heading: &str, text: &Option<String>) -> (r: bool)
    ensures
        views(final(parts)@) == views(old(parts)@) + section(heading@, opt_view(*text)),
        r == (section(heading@, opt_view(*text)).len() > 0),
{
    let mut added: bool = false;
    match text {
        Some(t) => {
            let body: String = trimmed(t.as_str());
            if !body.as_str().is_empty() {
                let mut part: String = heading.to_owned();
                part.append(body.as_str());
                parts.push(part);
                added = true;
            }
        },
        None => {},
    }
    proof {
        assert(views(parts@) =~= views(old(parts)@) + section(heading@, opt_view(*text)));
    }
    added
}

/// The messages that ask for the facts; none where both documents are blank.
pub fn build_messages(request: &SetupAnalysisRequest) -> (r: Option<Vec<ChatMessage>>)
    ensures
        if section(Seq::empty(), opt_view(request.resume_text)).len() == 0 && section(
            Seq::empty(),
            opt_view(request.job_description_text),
        ).len() == 0 {
            r is None
        } else {
            r matches Some(m) && chat_views(m@) == scene_and_message(
                SYSTEM_PROMPT@,
                documents_text(*request),
            )
        },
{
    let mut parts: Vec<String> = Vec::new();
    proof {
        assert(views(parts@) =~= Seq::empty());
    }
    let resume: bool = push_section(&mut parts, "RESUME:\n", &request.resume_text);
    let job: bool = push_section(&mut parts, "JOB DESCRIPTION:\n", &request.job_description_text);
    if !resume && !job {
        return None;
    }
    parts.push("Return the JSON object now.".to_owned());
    proof {
        assert(views(parts@) =~= section("RESUME:\n"@, opt_view(request.resume_text)) + section(
            "JOB DESCRIPTION:\n"@,
            opt_view(request.job_description_text),
        ) + seq!["Return the JSON object now."@]);
    }
    Some(two_messages(SYSTEM_PROMPT, join(&parts, "\n\n---\n\n")))
}

/// The text from the first opening to the last closing brace.
pub open spec fn braces_in(raw: Seq<char>) -> Result<Seq<char>, Seq<char>> {
    let text = trim(raw);
    match (first_index(text, '{', 0), last_index(text, '}', text.len() as int)) {
        (Some(start), Some(end)) if start <= end => Ok(text.subrange(start, end + 1)),
        _ => Err("no JSON object found"@),
    }
}

/// Finds the text from the first opening to the last closing brace.
pub fn extract_json(raw: &str) -> (r: Result<String, String>)
    ensures
        match r {
            Ok(s) => braces_in(raw@) == Ok::<Seq<char>, Seq<char>>(s@),
            Err(e) => braces_in(raw@) == Err::<Seq<char>, Seq<char>>(e@),
        },
{
    let body: String = trimmed(raw);
    let text: Vec<char> = to_chars(body.as_str());
    let total: usize = text.len();
    match (find_first(&text, '{'), find_last(&text, '}')) {
        (Some(start), Some(end)) => if start <= end && end < total {
            Ok(from_chars(&text, start, end + 1))
        } else {
            Err("no JSON object found".to_owned())
        },
        _ => Err("no JSON object found".to_owned()),
    }
}

/// The text that stands under a key, or none; nothing where something else
/// stands there.
pub open spec fn optional_text(found: FieldView) -> Option<Option<Seq<char>>> {
    match found {
        FieldView::Missing => Some(None),
        FieldView::Holds(JsonView::Null) => Some(None),
        FieldView::Holds(JsonView::Text(t)) => Some(Some(t)),
        _ => None,
    }
}

/// Every value is a text.
pub open spec fn all_texts(items: Seq<JsonView>) -> bool {
    forall|i: int| 0 <= i < items.len() ==> (#[trigger] items[i]) is Text
}

/// The texts that stand under a key, none where it is missing; nothing where
/// something else stands there.
pub open spec fn list_of_texts(found: FieldView) -> Option<Seq<Seq<char>>> {
    match found {
        FieldView::Missing => Some(Seq::empty()),
        FieldView::Holds(JsonView::Array(items)) => if all_texts(items) {
            Some(texts_of(items))
        } else {
            None
        },
        _ => None,
    }
}

/// The facts among the members of an object. Keys that are not asked for do not
/// matter; where a fact stands twice or is not of its kind, there are none.
pub open spec fn facts_in(members: Seq<MemberView>) -> SetupView {
    match (
        optional_text(field(members, "job_title"@)),
        optional_text(field(members, "company"@)),
        optional_text(field(members, "seniority"@)),
        optional_text(field(members, "employment_type"@)),
        list_of_texts(field(members, "key_responsibilities"@)),
        list_of_texts(field(members, "required_skills"@)),
        list_of_texts(field(members, "technologies"@)),
        list_of_texts(field(members, "focus_areas"@)),
        list_of_texts(field(members, "candidate_highlights"@)),
    ) {
        (
            Some(job_title),
            Some(company),
            Some(seniority),
            Some(employment_type),
            Some(key_responsibilities),
            Some(required_skills),
            Some(technologies),
            Some(focus_areas),
            Some(candidate_highlights),
        ) => SetupView {
            job_title,
            company,
            seniority,
            employment_type,
            key_responsibilities,
            required_skills,
            technologies,
            focus_areas,
            candidate_highlights,
        },
        _ => nothing_found(),
    }
}

/// The facts in a model's answer: in the object between its braces, where it
/// can be read.
pub open spec fn facts_in_answer(raw: Seq<char>) -> SetupView {
    match braces_in(raw) {
        Ok(text) => match members_in(text) {
            Some(members) => facts_in(members),
            None => nothing_found(),
        },
        Err(_) => nothing_found(),
    }
}

/// A key under which a fact stands.
pub open spec fn is_fact(key: Seq<char>) -> bool {
    ||| key == "job_title"@
    ||| key == "company"@
    ||| key == "seniority"@
    ||| key == "employment_type"@
    ||| key == "key_responsibilities"@
    ||| key == "required_skills"@
    ||| key == "technologies"@
    ||| key == "focus_areas"@
    ||| key == "candidate_highlights"@
}

/// What stands under a key that is not asked for does not matter, wherever it
/// stands.
pub proof fn other_keys_do_not_matter(
    before: Seq<MemberView>,
    other: MemberView,
    after: Seq<MemberView>,
)
    requires
        !is_fact(other.key),
    ensures
        facts_in(before + seq![other] + after) == facts_in(before + after),
{
    other_members_do_not_matter(before, other, after, "job_title"@);
    other_members_do_not_matter(before, other, after, "company"@);
    other_members_do_not_matter(before, other, after, "seniority"@);
    other_members_do_not_matter(before, other, after, "employment_type"@);
    other_members_do_not_matter(before, other, after, "key_responsibilities"@);
    other_members_do_not_matter(before, other, after, "required_skills"@);
    other_members_do_not_matter(before, other, after, "technologies"@);
    other_members_do_not_matter(before, other, after, "focus_areas"@);
    other_members_do_not_matter(before, other, after, "candidate_highlights"@);
}

/// An answer in which a fact stands twice says nothing.
pub proof fn a_repeated_fact_says_nothing(members: Seq<MemberView>, i: int, j: int)
    requires
        0 <= i < j < members.len(),
        members[i].key == members[j].key,
        is_fact(members[i].key),
    ensures
        facts_in(members) == nothing_found(),
{
    a_repeated_key_cannot_be_read(members, i, j);
}

/// The text that stands under a key, or none.
pub fn text_fact(found: Field) -> (r: Option<Option<String>>)
    ensures
        match r {
            Some(t) => optional_text(found@) == Some(opt_view(t)),
            None => optional_text(found@) is None,
        },
{
    match found {
        Field::Missing => Some(None),
        Field::Holds(Json::Null) => Some(None),
        Field::Holds(Json::Text(t)) => Some(Some(t)),
        _ => None,
    }
}

/// The texts that stand under a key.
pub fn list_fact(found: Field) -> (r: Option<Vec<String>>)
    ensures
        match r {
            Some(t) => list_of_texts(found@) == Some(views(t@)),
            None => list_of_texts(found@) is None,
        },
{
    let mut texts: Vec<String> = Vec::new();
    proof {
        assert(views(texts@) =~= Seq::empty());
    }
    match found {
        Field::Missing => Some(texts),
        Field::Holds(Json::Array(items)) => {
            proof {
                array_view(items);
            }
            let ghost all = json_views(items@);
            let mut i: usize = 0;
            proof {
                assert(all.take(0) =~= Seq::empty());
            }
            while i < items.len()
                invariant
                    i <= items@.len(),
                    all == json_views(items@),
                    found@ == FieldView::Holds(JsonView::Array(all)),
                    views(texts@) == texts_of(all.take(i as int)),
                    forall|j: int| 0 <= j < i ==> (#[trigger] all[j]) is Text,
                decreases items@.len() - i,
            {
                let ghost before = views(texts@);
                proof {
                    assert(all.take(i as int + 1).drop_last() =~= all.take(i as int));
                    assert(all.take(i as int + 1).last() == items@[i as int]@);
                    assert(all[i as int] == items@[i as int]@);
                }
                match &items[i] {
                    Json::Text(t) => {
                        texts.push(t.clone());
                        proof {
                            assert(views(texts@) =~= before.push(t@));
                        }
                    },
                    _ => {
                        proof {
                            assert(!(all[i as int] is Text));
                        }
                        return None;
                    },
                }
                i += 1;
            }
            proof {
                assert(all.take(i as int) =~= all);
            }
            Some(texts)
        },
        _ => None,
    }
}

/// Reads the facts among the members of an object.
pub fn read_facts(members: &Vec<Member>) -> (r: SetupAnalysisResponse)
    ensures
        r@ == facts_in(member_views(members@)),
{
    match (
        text_fact(read_field(members, "job_title")),
        text_fact(read_field(members, "company")),
        text_fact(read_field(members, "seniority")),
        text_fact(read_field(members, "employment_type")),
        list_fact(read_field(members, "key_responsibilities")),
        list_fact(read_field(members, "required_skills")),
        list_fact(read_field(members, "technologies")),
        list_fact(read_field(members, "focus_areas")),
        list_fact(read_field(members, "candidate_highlights")),
    ) {
        (
            Some(job_title),
            Some(company),
            Some(seniority),
            Some(employment_type),
            Some(key_responsibilities),
            Some(required_skills),
            Some(technologies),
            Some(focus_areas),
            Some(candidate_highlights),
        ) => SetupAnalysisResponse {
            job_title,
            company,
            seniority,
            employment_type,
            key_responsibilities,
            required_skills,
            technologies,
            focus_areas,
            candidate_highlights,
        },
        _ => SetupAnalysisResponse::default(),
    }
}

/// The facts in a model's answer; nothing where it cannot be read.
pub fn parse_response(raw: &str) -> (r: SetupAnalysisResponse)
    ensures
        r@ == facts_in_answer(raw@),
{
    match extract_json(raw) {
        Ok(text) => match read_members(text.as_str()) {
            Some(members) => read_facts(&members),
            None => SetupAnalysisResponse::default(),
        },
        Err(_) => SetupAnalysisResponse::default(),
    }
}

/// No facts.
pub fn empty_response() -> (r: SetupAnalysisResponse)
    ensures
        r@ == nothing_found(),
{
    SetupAnalysisResponse::default()
}

/// The object of an answer goes from the first opening to the last closing brace;
/// there is none exactly where no closing brace comes after an opening one.
pub proof fn the_object_goes_from_brace_to_brace(raw: Seq<char>)
    ensures
        braces_in(raw) matches Ok(object) ==> cut_at_the_braces(trim(raw), object),
        braces_in(raw) is Err ==> !exists|i: int, j: int|
            0 <= i < j < trim(raw).len() && #[trigger] trim(raw)[i] == '{' && #[trigger] trim(
                raw,
            )[j] == '}',
{
    braces_are_the_first_and_the_last(trim(raw));
}

/// Each fact is the one under its own key: where every fact stands once and is of
/// its kind, it is read as it stands, and a missing one is none.
pub proof fn each_fact_is_its_own(members: Seq<MemberView>)
    requires
        ({
            &&& is_text_or_nothing(field(members, "job_title"@))
            &&& is_text_or_nothing(field(members, "company"@))
            &&& is_text_or_nothing(field(members, "seniority"@))
            &&& is_text_or_nothing(field(members, "employment_type"@))
            &&& is_texts_or_nothing(field(members, "key_responsibilities"@))
            &&& is_texts_or_nothing(field(members, "required_skills"@))
            &&& is_texts_or_nothing(field(members, "technologies"@))
            &&& is_texts_or_nothing(field(members, "focus_areas"@))
            &&& is_texts_or_nothing(field(members, "candidate_highlights"@))
        }),
    ensures
        ({
            let facts = facts_in(members);
            &&& says(field(members, "job_title"@), facts.job_title)
            &&& says(field(members, "company"@), facts.company)
            &&& says(field(members, "seniority"@), facts.seniority)
            &&& says(field(members, "employment_type"@), facts.employment_type)
            &&& lists(field(members, "key_responsibilities"@), facts.key_responsibilities)
            &&& lists(field(members, "required_skills"@), facts.required_skills)
            &&& lists(field(members, "technologies"@), facts.technologies)
            &&& lists(field(members, "focus_areas"@), facts.focus_areas)
            &&& lists(field(members, "candidate_highlights"@), facts.candidate_highlights)
        }),
{
    listed_as_they_stand(field(members, "key_responsibilities"@));
    listed_as_they_stand(field(members, "required_skills"@));
    listed_as_they_stand(field(members, "technologies"@));
    listed_as_they_stand(field(members, "focus_areas"@));
    listed_as_they_stand(field(members, "candidate_highlights"@));
}

/// A text stands under a key, or nothing.
pub open spec fn is_text_or_nothing(found: FieldView) -> bool {
    match found {
        FieldView::Missing => true,
        FieldView::Holds(value) => value is Null || value is Text,
        FieldView::Unreadable => false,
    }
}

/// Texts stand under a key, or nothing.
pub open spec fn is_texts_or_nothing(found: FieldView) -> bool {
    match found {
        FieldView::Missing => true,
        FieldView::Holds(value) => value is Array && forall|i: int|
            0 <= i < value->Array_0.len() ==> (#[trigger] value->Array_0[i]) is Text,
        FieldView::Unreadable => false,
    }
}

/// What stands under a key says this text, or none.
pub open spec fn says(found: FieldView, text: Option<Seq<char>>) -> bool {
    match text {
        Some(t) => found == FieldView::Holds(JsonView::Text(t)),
        None => found is Missing || found == FieldView::Holds(JsonView::Null),
    }
}

/// What stands under a key lists these texts, in order.
pub open spec fn lists(found: FieldView, texts: Seq<Seq<char>>) -> bool {
    match found {
        FieldView::Holds(JsonView::Array(items)) => {
            &&& items.len() == texts.len()
            &&& forall|i: int|
                0 <= i < texts.len() ==> #[trigger] items[i] == JsonView::Text(texts[i])
        },
        _ => texts.len() == 0,
    }
}

proof fn listed_as_they_stand(found: FieldView)
    requires
        is_texts_or_nothing(found),
    ensures
        list_of_texts(found) matches Some(texts) && lists(found, texts),
{
    match found {
        FieldView::Holds(JsonView::Array(items)) => {
            texts_are_read_in_order(items, Seq::empty(), Seq::empty());
            let texts = texts_of(items);
            assert forall|i: int| 0 <= i < texts.len() implies #[trigger] items[i]
                == JsonView::Text(texts[i]) by {
                assert(items[i] == JsonView::Text(texts_of(items)[i]));
            }
        },
        _ => {},
    }
}

/// The documents are sent as they are, each under its heading, without the space
/// around them; a blank one is left out, and where both are, nothing is asked.
pub proof fn the_documents_are_sent(request: SetupAnalysisRequest)
    ensures
        request.resume_text matches Some(t) ==> trim(t@).len() == 0 || stands_in(
            documents_text(request),
            "RESUME:\n"@ + trim(t@),
        ),
        request.job_description_text matches Some(t) ==> trim(t@).len() == 0 || stands_in(
            documents_text(request),
            "JOB DESCRIPTION:\n"@ + trim(t@),
        ),
        stands_in(documents_text(request), "Return the JSON object now."@),
{
    let resume = section("RESUME:\n"@, opt_view(request.resume_text));
    let job = section("JOB DESCRIPTION:\n"@, opt_view(request.job_description_text));
    let parts = resume + job + seq!["Return the JSON object now."@];
    let sep = "\n\n---\n\n"@;
    part_stands_in_joined(parts, sep, parts.len() - 1);
    assert(parts.last() == "Return the JSON object now."@);
    if resume.len() > 0 {
        part_stands_in_joined(parts, sep, 0);
        assert(parts[0] == resume[0]);
    }
    if job.len() > 0 {
        part_stands_in_joined(parts, sep, resume.len() as int);
        assert(parts[resume.len() as int] == job[0]);
    }
}

/// The facts are those of the object in the answer, whatever stands around it;
/// where there is none, or it cannot be read, nothing was found.
pub proof fn the_facts_are_those_of_the_object(raw: Seq<char>, object: Seq<char>)
    ensures
        braces_in(raw) == Ok::<Seq<char>, Seq<char>>(object) ==> match members_in(object) {
            Some(members) => facts_in_answer(raw) == facts_in(members),
            None => facts_in_answer(raw) == nothing_found(),
        },
        braces_in(raw) is Err ==> facts_in_answer(raw) == nothing_found(),
{
}

} // verus!
