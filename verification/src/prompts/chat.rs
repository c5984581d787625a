//! Plain messages to a model, and the JSON object in its answer.
use vstd::prelude::*;
use vstd::string::*;

use crate::backend::{exchange_views, ConversationTurn, ExchangeView};
use crate::text::{
    from_chars, matches_at, nothing_to_trim, occurs_at, starts_with, to_chars, trim, trimmed_chars,
};

verus! {

/// A message to a model.
#[derive(Debug, Clone)]
pub struct ChatMessage {
    pub role: &'static str,
    pub content: String,
}

/// The view of a message.
pub struct ChatView {
    pub role: Seq<char>,
    pub content: Seq<char>,
}

/// The views of a sequence of messages.
pub open spec fn chat_views(messages: Seq<ChatMessage>) -> Seq<ChatView> {
    messages.map_values(|m: ChatMessage| m@)
}

/// A message that sets the scene.
pub open spec fn system_message(content: Seq<char>) -> ChatView {
    ChatView { role: "system"@, content }
}

/// A message of the user.
pub open spec fn user_message(content: Seq<char>) -> ChatView {
    ChatView { role: "user"@, content }
}

/// A message of the assistant.
pub open spec fn assistant_message(content: Seq<char>) -> ChatView {
    ChatView { role: "assistant"@, content }
}

impl ChatMessage {
    pub open spec fn view(&self) -> ChatView {
        ChatView { role: self.role@, content: self.content@ }
    }

    pub fn system(content: String) -> (r: ChatMessage)
        ensures
            r@ == system_message(content@),
    {
        ChatMessage { role: "system", content }
    }

    pub fn user(content: String) -> (r: ChatMessage)
        ensures
            r@ == user_message(content@),
    {
        ChatMessage { role: "user", content }
    }

    pub fn assistant(content: String) -> (r: ChatMessage)
        ensures
            r@ == assistant_message(content@),
    {
        ChatMessage { role: "assistant", content }
    }
}

/// Adds one message.
pub fn push_message(messages: &mut Vec<ChatMessage>, message: ChatMessage)
    ensures
        chat_views(final(messages)@) == chat_views(old(messages)@).push(message@),
{
    messages.push(message);
    proof {
        assert(chat_views(messages@) =~= chat_views(old(messages)@).push(message@));
    }
}

/// The first position of a character at or after `i`.
pub open spec fn first_index(s: Seq<char>, c: char, i: int) -> Option<int>
    decreases s.len() - i,
{
    if i < 0 || i >= s.len() {
        None
    } else if s[i] == c {
        Some(i)
    } else {
        first_index(s, c, i + 1)
    }
}

/// The last position of a character before `i`.
pub open spec fn last_index(s: Seq<char>, c: char, i: int) -> Option<int>
    decreases i,
{
    if i <= 0 || i > s.len() {
        None
    } else if s[i - 1] == c {
        Some(i - 1)
    } else {
        last_index(s, c, i - 1)
    }
}

/// The first position of a character.
pub fn find_first(s: &Vec<char>, c: char) -> (r: Option<usize>)
    ensures
        match r {
            Some(p) => first_index(s@, c, 0) == Some(p as int) && p < s@.len() && s@[p as int]
                == c,
            None => first_index(s@, c, 0) is None,
        },
{
    let mut i: usize = 0;
    while i < s.len()
        invariant
            i <= s@.len(),
            first_index(s@, c, 0) == first_index(s@, c, i as int),
        decreases s@.len() - i,
    {
        if s[i] == c {
            return Some(i);
        }
        i += 1;
    }
    None
}

/// The last position of a character.
pub fn find_last(s: &Vec<char>, c: char) -> (r: Option<usize>)
    ensures
        match r {
            Some(p) => last_index(s@, c, s@.len() as int) == Some(p as int) && p < s@.len()
                && s@[p as int] == c,
            None => last_index(s@, c, s@.len() as int) is None,
        },
{
    let mut i: usize = s.len();
    while i > 0
        invariant
            i <= s@.len(),
            last_index(s@, c, s@.len() as int) == last_index(s@, c, i as int),
        decreases i,
    {
        if s[i - 1] == c {
            return Some(i - 1);
        }
        i -= 1;
    }
    None
}

/// A text without `prefix` at its start, where it has it.
pub open spec fn without_prefix(s: Seq<char>, prefix: Seq<char>) -> Seq<char> {
    if starts_with(s, prefix) {
        s.skip(prefix.len() as int)
    } else {
        s
    }
}

/// A text without `suffix` at its end, where it has it.
pub open spec fn without_suffix(s: Seq<char>, suffix: Seq<char>) -> Seq<char> {
    if occurs_at(s, suffix, s.len() - suffix.len()) {
        s.take(s.len() - suffix.len())
    } else {
        s
    }
}

/// A text without the line ends at its start.
pub open spec fn without_line_ends(s: Seq<char>) -> Seq<char>
    decreases s.len(),
{
    if s.len() > 0 && (s[0] == '\r' || s[0] == '\n') {
        without_line_ends(s.drop_first())
    } else {
        s
    }
}

/// A text without the Markdown fence around it, where it has one.
pub open spec fn unfenced(raw: Seq<char>) -> Seq<char> {
    let text = trim(raw);
    if starts_with(text, "```"@) {
        let body = without_line_ends(without_prefix(text.skip(3), "json"@));
        trim(without_suffix(body, "```"@))
    } else {
        text
    }
}

/// The text from the first opening to the last closing brace.
pub open spec fn braced(text: Seq<char>) -> Result<Seq<char>, Seq<char>> {
    match (first_index(text, '{', 0), last_index(text, '}', text.len() as int)) {
        (Some(start), Some(end)) if start <= end => Ok(text.subrange(start, end + 1)),
        _ => Err("no JSON object found in model response"@),
    }
}

/// The JSON object in a model's answer.
pub open spec fn json_object_in(raw: Seq<char>) -> Result<Seq<char>, Seq<char>> {
    braced(unfenced(raw))
}

fn skip_chars(s: &Vec<char>, n: usize) -> (r: Vec<char>)
    requires
        n <= s@.len(),
    ensures
        r@ == s@.skip(n as int),
{
    let mut out: Vec<char> = Vec::new();
    let mut i: usize = n;
    while i < s.len()
        invariant
            n <= i <= s@.len(),
            out@ == s@.subrange(n as int, i as int),
        decreases s@.len() - i,
    {
        out.push(s[i]);
        proof {
            assert(s@.subrange(n as int, i as int + 1) =~= s@.subrange(n as int, i as int).push(
                s@[i as int],
            ));
        }
        i += 1;
    }
    proof {
        assert(s@.subrange(n as int, s@.len() as int) =~= s@.skip(n as int));
    }
    out
}

fn unfence(raw: &str) -> (r: Vec<char>)
    ensures
        r@ == unfenced(raw@),
{
    let all: Vec<char> = to_chars(raw);
    let text: String = trimmed_chars(&all);
    let chars: Vec<char> = to_chars(text.as_str());
    let fence: Vec<char> = to_chars("```");
    proof {
        reveal_strlit("```");
        reveal_strlit("json");
    }
    if !matches_at(&chars, &fence, 0) {
        return chars;
    }
    let rest: Vec<char> = skip_chars(&chars, 3);
    let tag: Vec<char> = to_chars("json");
    let body: Vec<char> = if matches_at(&rest, &tag, 0) {
        skip_chars(&rest, 4)
    } else {
        rest
    };
    let ghost whole = body@;
    let mut start: usize = 0;
    proof {
        assert(body@.skip(0) =~= body@);
    }
    while start < body.len() && (body[start] == '\r' || body[start] == '\n')
        invariant
            start <= body@.len(),
            without_line_ends(body@) == without_line_ends(body@.skip(start as int)),
        decreases body@.len() - start,
    {
        proof {
            assert(body@.skip(start as int).drop_first() =~= body@.skip(start as int + 1));
        }
        start += 1;
    }
    let inner: Vec<char> = skip_chars(&body, start);
    proof {
        assert(inner@ == without_line_ends(whole));
    }
    let end: usize = if inner.len() >= 3 && matches_at(&inner, &fence, inner.len() - 3) {
        inner.len() - 3
    } else {
        inner.len()
    };
    let kept: String = from_chars(&inner, 0, end);
    proof {
        assert(inner@.subrange(0, end as int) =~= without_suffix(inner@, "```"@));
    }
    let kept_chars: Vec<char> = to_chars(kept.as_str());
    let out: String = trimmed_chars(&kept_chars);
    to_chars(out.as_str())
}

/// The JSON object in a model's answer: what stands from the first opening to
/// the last closing brace, with or without a Markdown fence around it.
pub fn extract_json_object(raw: &str) -> (r: Result<String, String>)
    ensures
        match r {
            Ok(s) => json_object_in(raw@) == Ok::<Seq<char>, Seq<char>>(s@),
            Err(e) => json_object_in(raw@) == Err::<Seq<char>, Seq<char>>(e@),
        },
{
    let text: Vec<char> = unfence(raw);
    let total: usize = text.len();
    match (find_first(&text, '{'), find_last(&text, '}')) {
        (Some(start), Some(end)) => if start <= end && end < total {
            Ok(from_chars(&text, start, end + 1))
        } else {
            Err("no JSON object found in model response".to_owned())
        },
        _ => Err("no JSON object found in model response".to_owned()),
    }
}

proof fn first_index_is_the_character(s: Seq<char>, c: char, i: int)
    ensures
        first_index(s, c, i) matches Some(p) ==> i <= p < s.len() && 0 <= p && s[p] == c,
    decreases s.len() - i,
{
    if 0 <= i < s.len() && s[i] != c {
        first_index_is_the_character(s, c, i + 1);
    }
}

proof fn last_index_is_the_character(s: Seq<char>, c: char, i: int)
    ensures
        last_index(s, c, i) matches Some(p) ==> 0 <= p < i && p < s.len() && s[p] == c,
    decreases i,
{
    if 0 < i <= s.len() && s[i - 1] != c {
        last_index_is_the_character(s, c, i - 1);
    }
}

/// What is taken for the object begins and ends with a brace and stands in the
/// answer as it is.
pub proof fn the_object_is_braced(raw: Seq<char>)
    ensures
        json_object_in(raw) matches Ok(object) ==> {
            &&& object.len() >= 2
            &&& object[0] == '{'
            &&& object.last() == '}'
            &&& crate::text::contains(unfenced(raw), object)
        },
{
    let text = unfenced(raw);
    first_index_is_the_character(text, '{', 0);
    last_index_is_the_character(text, '}', text.len() as int);
    match (first_index(text, '{', 0), last_index(text, '}', text.len() as int)) {
        (Some(start), Some(end)) => {
            if start <= end {
                assert(occurs_at(text, text.subrange(start, end + 1), start));
            }
        },
        _ => {},
    }
}

/// Earlier exchanges as messages: each question and its answer, in order.
pub open spec fn replayed(turns: Seq<ExchangeView>) -> Seq<ChatView>
    decreases turns.len(),
{
    if turns.len() == 0 {
        Seq::empty()
    } else {
        replayed(turns.drop_last()).push(user_message(turns.last().question)).push(
            assistant_message(turns.last().answer),
        )
    }
}

/// Adds earlier exchanges as messages.
pub fn push_history(messages: &mut Vec<ChatMessage>, turns: &Vec<ConversationTurn>)
    ensures
        chat_views(final(messages)@) == chat_views(old(messages)@) + replayed(
            exchange_views(turns@),
        ),
{
    let ghost all = exchange_views(turns@);
    let ghost before = chat_views(messages@);
    let mut i: usize = 0;
    proof {
        assert(all.take(0) =~= Seq::empty());
        assert(before + replayed(all.take(0)) =~= before);
    }
    while i < turns.len()
        invariant
            i <= turns@.len(),
            all == exchange_views(turns@),
            chat_views(messages@) == before + replayed(all.take(i as int)),
        decreases turns@.len() - i,
    {
        proof {
            assert(all.take(i as int + 1).drop_last() =~= all.take(i as int));
            assert(all.take(i as int + 1).last() == turns@[i as int]@);
        }
        push_message(messages, ChatMessage::user(turns[i].question.clone()));
        push_message(messages, ChatMessage::assistant(turns[i].answer.clone()));
        proof {
            assert(chat_views(messages@) =~= before + replayed(all.take(i as int + 1)));
        }
        i += 1;
    }
    proof {
        assert(all.take(i as int) =~= all);
    }
}

/// Every exchange becomes two messages, the question and then the answer, in
/// the order of the exchanges.
pub proof fn history_is_replayed_in_order(turns: Seq<ExchangeView>, i: int)
    requires
        0 <= i < turns.len(),
    ensures
        replayed(turns).len() == 2 * turns.len(),
        replayed(turns)[2 * i] == user_message(turns[i].question),
        replayed(turns)[2 * i + 1] == assistant_message(turns[i].answer),
    decreases turns.len(),
{
    replayed_length(turns.drop_last());
    if i < turns.len() - 1 {
        history_is_replayed_in_order(turns.drop_last(), i);
    }
}

pub(crate) proof fn replayed_length(turns: Seq<ExchangeView>)
    ensures
        replayed(turns).len() == 2 * turns.len(),
    decreases turns.len(),
{
    if turns.len() > 0 {
        replayed_length(turns.drop_last());
    }
}

proof fn nothing_before_the_first(s: Seq<char>, c: char, i: int)
    requires
        0 <= i,
    ensures
        match first_index(s, c, i) {
            Some(p) => i <= p < s.len() && s[p] == c && forall|j: int|
                i <= j < p ==> #[trigger] s[j] != c,
            None => forall|j: int| i <= j < s.len() ==> #[trigger] s[j] != c,
        },
    decreases s.len() - i,
{
    if i < s.len() && s[i] != c {
        nothing_before_the_first(s, c, i + 1);
    }
}

proof fn nothing_after_the_last(s: Seq<char>, c: char, i: int)
    requires
        i <= s.len(),
    ensures
        match last_index(s, c, i) {
            Some(p) => 0 <= p < i && s[p] == c && forall|j: int|
                p < j < i ==> #[trigger] s[j] != c,
            None => forall|j: int| 0 <= j < i ==> #[trigger] s[j] != c,
        },
    decreases i,
{
    if 0 < i && s[i - 1] != c {
        nothing_after_the_last(s, c, i - 1);
    }
}

/// A text is cut from its first opening to its last closing brace.
pub open spec fn cut_at_the_braces(text: Seq<char>, object: Seq<char>) -> bool {
    exists|before: Seq<char>, after: Seq<char>|
        {
            &&& text == #[trigger] (before + object + after)
            &&& !before.contains('{')
            &&& !after.contains('}')
            &&& object.len() >= 2
            &&& object[0] == '{'
            &&& object.last() == '}'
        }
}

/// Cutting at the braces takes all from the first opening to the last closing
/// brace, and there is nothing to take exactly where no closing brace comes after
/// an opening one.
pub proof fn braces_are_the_first_and_the_last(text: Seq<char>)
    ensures
        match (first_index(text, '{', 0), last_index(text, '}', text.len() as int)) {
            (Some(start), Some(end)) if start <= end => cut_at_the_braces(
                text,
                text.subrange(start, end + 1),
            ),
            _ => !exists|i: int, j: int|
                0 <= i < j < text.len() && #[trigger] text[i] == '{' && #[trigger] text[j] == '}',
        },
        braced(text) matches Ok(object) ==> cut_at_the_braces(text, object),
        braced(text) is Err ==> !exists|i: int, j: int|
            0 <= i < j < text.len() && #[trigger] text[i] == '{' && #[trigger] text[j] == '}',
{
    nothing_before_the_first(text, '{', 0);
    nothing_after_the_last(text, '}', text.len() as int);
    match (first_index(text, '{', 0), last_index(text, '}', text.len() as int)) {
        (Some(start), Some(end)) => {
            if start <= end {
                let before = text.take(start);
                let object = text.subrange(start, end + 1);
                let after = text.skip(end + 1);
                assert(text =~= before + object + after);
                assert forall|k: int| 0 <= k < before.len() implies before[k] != '{' by {
                    assert(text[k] != '{');
                }
                assert forall|k: int| 0 <= k < after.len() implies after[k] != '}' by {
                    assert(text[end + 1 + k] != '}');
                }
                assert(cut_at_the_braces(text, object));
            }
        },
        _ => {},
    }
}

/// An object is found in an answer as it is: without a fence between the first
/// opening and the last closing brace of what is said, and in a fence between
/// those of what stands in the fence.
pub proof fn the_object_is_found_as_it_is(raw: Seq<char>, body: Seq<char>)
    ensures
        json_object_in(raw) matches Ok(object) ==> cut_at_the_braces(unfenced(raw), object),
        !starts_with(trim(raw), "```"@) ==> unfenced(raw) == trim(raw),
        body.len() > 0 && body[0] == '{' && body.last() == '}' ==> {
            &&& unfenced("```json\n"@ + body + "```"@) == body
            &&& unfenced("```\n"@ + body + "```"@) == body
            &&& unfenced(body) == body
        },
{
    reveal_strlit("```");
    reveal_strlit("json");
    reveal_strlit("```json\n");
    reveal_strlit("```\n");
    braces_are_the_first_and_the_last(unfenced(raw));
    if body.len() > 0 && body[0] == '{' && body.last() == '}' {
        nothing_to_trim(body);
        let plain = "```\n"@ + body + "```"@;
        let named = "```json\n"@ + body + "```"@;
        nothing_to_trim(plain);
        nothing_to_trim(named);
        assert(plain.subrange(0, 3) =~= "```"@);
        assert(named.subrange(0, 3) =~= "```"@);
        let a = plain.skip(3);
        let b = named.skip(3);
        assert(b.subrange(0, 4) =~= "json"@);
        if starts_with(a, "json"@) {
            assert(a.subrange(0, 4)[0] == a[0]);
            assert(a[0] == '\n');
        }
        let c = b.skip(4);
        let inner = body + "```"@;
        assert(a.drop_first() =~= inner);
        assert(c.drop_first() =~= inner);
        assert(a[0] == '\n' && c[0] == '\n');
        assert(inner[0] == '{');
        assert(without_line_ends(inner) == inner);
        assert(without_line_ends(a) == inner);
        assert(without_line_ends(c) == inner);
        assert(inner.subrange(inner.len() - 3, inner.len() as int) =~= "```"@);
        assert(inner.take(inner.len() - 3) =~= body);
        assert(body.subrange(0, 3)[0] == '{' || body.len() < 3);
        if starts_with(body, "```"@) {
            assert(body.subrange(0, 3)[0] == '{');
        }
    }
}

/// A message has the role of who says it, and says what they said.
pub proof fn a_message_has_the_role_of_its_speaker(content: Seq<char>)
    ensures
        system_message(content).role == "system"@ && system_message(content).content == content,
        user_message(content).role == "user"@ && user_message(content).content == content,
        assistant_message(content).role == "assistant"@ && assistant_message(content).content
            == content,
{
}

} // verus!
