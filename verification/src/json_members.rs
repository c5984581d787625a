//! The members of a JSON object as they stand in its text: every one of them,
//! those with a repeated key too, and their values unread.
use vstd::prelude::*;
use vstd::string::*;

use crate::json::{json_parse, read_json, Json, JsonView};
use crate::text::{from_chars, same, to_chars};

verus! {

/// The JSON value with which a text begins, as its text, with the whitespace
/// before it: what `serde_json::StreamDeserializer` passes over where it reads
/// one `serde::de::IgnoredAny`; nothing where the text begins with no value.
pub uninterp spec fn leading_value(text: Seq<char>) -> Option<Seq<char>>;

/// `serde_json::StreamDeserializer::next` for `serde::de::IgnoredAny`, with
/// `byte_offset` after it: passes over the JSON value at the start of a text.
/// Which part of the text that is depends on the text alone and is named
/// `leading_value`. It is a beginning of the text and not empty.
#[verifier::external_body]
fn pass_over_value(text: &str) -> (r: Option<String>)
    ensures
        match r {
            Some(value) => {
                &&& leading_value(text@) == Some(value@)
                &&& value@.len() > 0
                &&& value@.is_prefix_of(text@)
            },
            None => leading_value(text@) is None,
        },
{
    let mut values = serde_json::Deserializer::from_str(text).into_iter::<serde::de::IgnoredAny>();
    match values.next() {
        Some(Ok(_)) => Some(text[..values.byte_offset()].to_owned()),
        _ => None,
    }
}

/// A member of an object: its key, and the text of its value.
#[derive(Debug, Clone)]
pub struct Member {
    pub key: String,
    pub value: String,
}

/// The view of a member.
pub struct MemberView {
    pub key: Seq<char>,
    pub value: Seq<char>,
}

impl Member {
    pub open spec fn view(&self) -> MemberView {
        MemberView { key: self.key@, value: self.value@ }
    }
}

/// The views of a sequence of members.
pub open spec fn member_views(members: Seq<Member>) -> Seq<MemberView> {
    members.map_values(|m: Member| m@)
}

/// What may stand between the parts of a JSON text.
pub open spec fn is_space(c: char) -> bool {
    c == ' ' || c == '\n' || c == '\t' || c == '\r'
}

/// A text without the whitespace at its start.
pub open spec fn past_space(text: Seq<char>) -> Seq<char>
    decreases text.len(),
{
    if text.len() > 0 && is_space(text[0]) {
        past_space(text.drop_first())
    } else {
        text
    }
}

/// The text begins with the character.
pub open spec fn opens_with(text: Seq<char>, c: char) -> bool {
    text.len() > 0 && text[0] == c
}

/// Nothing but whitespace is left.
pub open spec fn at_end(text: Seq<char>) -> bool {
    past_space(text).len() == 0
}

/// The member with which a text begins, and the text after it, past
/// whitespace.
pub open spec fn first_member(text: Seq<char>) -> Option<(MemberView, Seq<char>)> {
    match leading_value(text) {
        Some(key_text) if opens_with(text, '"') => match json_parse(key_text) {
            Ok(JsonView::Text(key)) => {
                let rest = past_space(text.skip(key_text.len() as int));
                if opens_with(rest, ':') {
                    let tail = rest.skip(1);
                    match leading_value(tail) {
                        Some(value) => Some(
                            (
                                MemberView { key, value },
                                past_space(tail.skip(value.len() as int)),
                            ),
                        ),
                        None => None,
                    }
                } else {
                    None
                }
            },
            _ => None,
        },
        _ => None,
    }
}

/// The members of an object from a member on, separated by commas, up to the
/// closing brace at the end of the text. A member takes up some of the text.
pub open spec fn members_from(text: Seq<char>) -> Option<Seq<MemberView>>
    decreases text.len(),
{
    match first_member(text) {
        Some((member, rest)) if rest.len() < text.len() => if opens_with(rest, '}') {
            if at_end(rest.skip(1)) {
                Some(seq![member])
            } else {
                None
            }
        } else if opens_with(rest, ',') && past_space(rest.skip(1)).len() < text.len() {
            match members_from(past_space(rest.skip(1))) {
                Some(others) => Some(seq![member] + others),
                None => None,
            }
        } else {
            None
        },
        _ => None,
    }
}

/// The members of the object that a text is, in order; nothing where it is no
/// object.
pub open spec fn members_in(text: Seq<char>) -> Option<Seq<MemberView>> {
    let object = past_space(text);
    if !opens_with(object, '{') {
        None
    } else {
        let inner = past_space(object.skip(1));
        if opens_with(inner, '}') {
            if at_end(inner.skip(1)) {
                Some(Seq::empty())
            } else {
                None
            }
        } else {
            members_from(inner)
        }
    }
}

/// Finds where the whitespace from a position on ends.
fn skip_space(chars: &Vec<char>, from: usize) -> (r: usize)
    requires
        from <= chars@.len(),
    ensures
        from <= r <= chars@.len(),
        chars@.skip(r as int) == past_space(chars@.skip(from as int)),
{
    let mut i: usize = from;
    while i < chars.len() && (chars[i] == ' ' || chars[i] == '\n' || chars[i] == '\t' || chars[i]
        == '\r')
        invariant
            from <= i <= chars@.len(),
            past_space(chars@.skip(i as int)) == past_space(chars@.skip(from as int)),
        decreases chars@.len() - i,
    {
        proof {
            assert(chars@.skip(i as int).drop_first() =~= chars@.skip(i as int + 1));
        }
        i += 1;
    }
    i
}

/// Whether a character stands at a position.
fn is_at(chars: &Vec<char>, at: usize, c: char) -> (r: bool)
    requires
        at <= chars@.len(),
    ensures
        r == opens_with(chars@.skip(at as int), c),
        r ==> at < chars@.len() && at < usize::MAX,
{
    at < chars.len() && chars[at] == c
}

/// Passes over the value at a position: its text, and the position after it.
fn value_at(chars: &Vec<char>, at: usize) -> (r: Option<(String, usize)>)
    requires
        at <= chars@.len(),
    ensures
        match r {
            Some((value, end)) => {
                &&& leading_value(chars@.skip(at as int)) == Some(value@)
                &&& at < end <= chars@.len()
                &&& chars@.skip(end as int) == chars@.skip(at as int).skip(value@.len() as int)
            },
            None => leading_value(chars@.skip(at as int)) is None,
        },
{
    let rest: String = from_chars(chars, at, chars.len());
    proof {
        assert(chars@.subrange(at as int, chars@.len() as int) =~= chars@.skip(at as int));
    }
    match pass_over_value(rest.as_str()) {
        Some(value) => {
            let size: usize = to_chars(value.as_str()).len();
            proof {
                assert(chars@.skip(at as int).skip(size as int) =~= chars@.skip(at + size));
            }
            Some((value, at + size))
        },
        None => None,
    }
}

/// Reads the member at a position: the member, and the position after it.
fn member_at(chars: &Vec<char>, at: usize) -> (r: Option<(Member, usize)>)
    requires
        at <= chars@.len(),
    ensures
        match r {
            Some((member, end)) => {
                &&& first_member(chars@.skip(at as int)) == Some(
                    (member@, chars@.skip(end as int)),
                )
                &&& at < end <= chars@.len()
            },
            None => first_member(chars@.skip(at as int)) is None,
        },
{
    if !is_at(chars, at, '"') {
        return None;
    }
    match value_at(chars, at) {
        Some((key_text, key_end)) => match read_json(key_text.as_str()) {
            Ok(Json::Text(key)) => {
                let colon: usize = skip_space(chars, key_end);
                if !is_at(chars, colon, ':') {
                    return None;
                }
                proof {
                    assert(chars@.skip(colon as int).skip(1) =~= chars@.skip(colon as int + 1));
                }
                match value_at(chars, colon + 1) {
                    Some((value, value_end)) => {
                        let end: usize = skip_space(chars, value_end);
                        Some((Member { key, value }, end))
                    },
                    None => None,
                }
            },
            _ => None,
        },
        None => None,
    }
}

/// Reads the members of the object that a text is.
pub fn read_members(text: &str) -> (r: Option<Vec<Member>>)
    ensures
        match r {
            Some(members) => members_in(text@) == Some(member_views(members@)),
            None => members_in(text@) is None,
        },
{
    let chars: Vec<char> = to_chars(text);
    proof {
        assert(chars@.skip(0) =~= text@);
    }
    let open: usize = skip_space(&chars, 0);
    if !is_at(&chars, open, '{') {
        return None;
    }
    proof {
        assert(chars@.skip(open as int).skip(1) =~= chars@.skip(open as int + 1));
    }
    let mut at: usize = skip_space(&chars, open + 1);
    let mut members: Vec<Member> = Vec::new();
    proof {
        assert(member_views(members@) =~= Seq::empty());
    }
    if is_at(&chars, at, '}') {
        proof {
            assert(chars@.skip(at as int).skip(1) =~= chars@.skip(at as int + 1));
        }
        if skip_space(&chars, at + 1) == chars.len() {
            return Some(members);
        }
        return None;
    }
    loop
        invariant
            at <= chars@.len(),
            match members_from(chars@.skip(at as int)) {
                Some(others) => members_in(text@) == Some(member_views(members@) + others),
                None => members_in(text@) is None,
            },
        decreases chars@.len() - at,
    {
        let ghost before = member_views(members@);
        let ghost here = chars@.skip(at as int);
        match member_at(&chars, at) {
            Some((member, end)) => {
                members.push(member);
                proof {
                    assert(member_views(members@) =~= before.push(member@));
                    assert(before + seq![member@] =~= before.push(member@));
                }
                if is_at(&chars, end, '}') {
                    proof {
                        assert(chars@.skip(end as int).skip(1) =~= chars@.skip(end as int + 1));
                    }
                    if skip_space(&chars, end + 1) == chars.len() {
                        return Some(members);
                    }
                    return None;
                }
                if !is_at(&chars, end, ',') {
                    return None;
                }
                proof {
                    assert(chars@.skip(end as int).skip(1) =~= chars@.skip(end as int + 1));
                }
                at = skip_space(&chars, end + 1);
                proof {
                    match members_from(chars@.skip(at as int)) {
                        Some(others) => {
                            assert(before + (seq![member@] + others) =~= before.push(member@)
                                + others);
                        },
                        None => {},
                    }
                }
            },
            None => {
                return None;
            },
        }
    }
}

/// The texts of the values under a key, in order.
pub open spec fn values_under(members: Seq<MemberView>, key: Seq<char>) -> Seq<Seq<char>>
    decreases members.len(),
{
    if members.len() == 0 {
        Seq::empty()
    } else {
        let before = values_under(members.drop_last(), key);
        if members.last().key == key {
            before.push(members.last().value)
        } else {
            before
        }
    }
}

/// What stands under a key.
#[derive(Debug)]
pub enum Field {
    /// No member has the key.
    Missing,
    /// One member has the key, with this value.
    Holds(Json),
    /// Several members have the key, or its value cannot be read.
    Unreadable,
}

/// The view of what stands under a key.
pub enum FieldView {
    Missing,
    Holds(JsonView),
    Unreadable,
}

impl Field {
    pub open spec fn view(&self) -> FieldView {
        match *self {
            Field::Missing => FieldView::Missing,
            Field::Holds(value) => FieldView::Holds(value@),
            Field::Unreadable => FieldView::Unreadable,
        }
    }
}

/// What stands under a key of an object.
pub open spec fn field(members: Seq<MemberView>, key: Seq<char>) -> FieldView {
    let values = values_under(members, key);
    if values.len() == 0 {
        FieldView::Missing
    } else if values.len() == 1 {
        match json_parse(values[0]) {
            Ok(value) => FieldView::Holds(value),
            Err(_) => FieldView::Unreadable,
        }
    } else {
        FieldView::Unreadable
    }
}

/// Reads what stands under a key of an object.
pub fn read_field(members: &Vec<Member>, key: &str) -> (r: Field)
    ensures
        r@ == field(member_views(members@), key@),
{
    let ghost all = member_views(members@);
    let mut found: Option<usize> = None;
    let mut repeated: bool = false;
    let mut i: usize = 0;
    proof {
        assert(all.take(0) =~= Seq::empty());
    }
    while i < members.len()
        invariant
            i <= members@.len(),
            all == member_views(members@),
            repeated == (values_under(all.take(i as int), key@).len() > 1),
            match found {
                Some(at) => {
                    &&& at < i
                    &&& values_under(all.take(i as int), key@).len() > 0
                    &&& values_under(all.take(i as int), key@)[0] == members@[at as int].value@
                },
                None => values_under(all.take(i as int), key@).len() == 0,
            },
        decreases members@.len() - i,
    {
        proof {
            assert(all.take(i as int + 1).drop_last() =~= all.take(i as int));
            assert(all.take(i as int + 1).last() == members@[i as int]@);
        }
        if same(members[i].key.as_str(), key) {
            if found.is_some() {
                repeated = true;
            } else {
                found = Some(i);
            }
        }
        i += 1;
    }
    proof {
        assert(all.take(i as int) =~= all);
    }
    match found {
        Some(at) => {
            if repeated {
                return Field::Unreadable;
            }
            match read_json(members[at].value.as_str()) {
                Ok(value) => Field::Holds(value),
                Err(_) => Field::Unreadable,
            }
        },
        None => Field::Missing,
    }
}

proof fn values_under_both(a: Seq<MemberView>, b: Seq<MemberView>, key: Seq<char>)
    ensures
        values_under(a + b, key) == values_under(a, key) + values_under(b, key),
    decreases b.len(),
{
    if b.len() == 0 {
        assert(a + b =~= a);
        assert(values_under(a, key) + values_under(b, key) =~= values_under(a, key));
    } else {
        assert((a + b).drop_last() =~= a + b.drop_last());
        values_under_both(a, b.drop_last(), key);
        assert(values_under(a + b, key) =~= values_under(a, key) + values_under(b, key));
    }
}

/// What stands under a key does not depend on a member with another key,
/// wherever it stands and whatever its value.
pub proof fn other_members_do_not_matter(
    before: Seq<MemberView>,
    other: MemberView,
    after: Seq<MemberView>,
    key: Seq<char>,
)
    requires
        other.key != key,
    ensures
        field(before + seq![other] + after, key) == field(before + after, key),
{
    let none = Seq::<Seq<char>>::empty();
    values_under_both(before + seq![other], after, key);
    values_under_both(before, seq![other], key);
    values_under_both(before, after, key);
    assert(seq![other].drop_last() =~= Seq::<MemberView>::empty());
    assert(values_under(Seq::<MemberView>::empty(), key) == none);
    assert(values_under(seq![other], key) == none);
    assert(values_under(before, key) + none =~= values_under(before, key));
}

/// A key that two members have cannot be read.
pub proof fn a_repeated_key_cannot_be_read(members: Seq<MemberView>, i: int, j: int)
    requires
        0 <= i < j < members.len(),
        members[i].key == members[j].key,
    ensures
        field(members, members[i].key) == FieldView::Unreadable,
{
    let key = members[i].key;
    let a = members.take(i + 1);
    let b = members.skip(i + 1);
    assert(members =~= a + b);
    values_under_both(a, b, key);
    assert(a.last().key == key);
    let c = b.take(j - i);
    let d = b.skip(j - i);
    assert(b =~= c + d);
    values_under_both(c, d, key);
    assert(c.last() == members[j]);
}

proof fn spaces_are_passed_over(spaces: Seq<char>, rest: Seq<char>)
    requires
        forall|i: int| 0 <= i < spaces.len() ==> is_space(#[trigger] spaces[i]),
        rest.len() > 0 ==> !is_space(rest[0]),
    ensures
        past_space(spaces + rest) == rest,
    decreases spaces.len(),
{
    let text = spaces + rest;
    if spaces.len() == 0 {
        assert(text =~= rest);
    } else {
        let fewer = spaces.drop_first();
        assert(text[0] == spaces[0]);
        assert(forall|i: int| 0 <= i < fewer.len() ==> fewer[i] == #[trigger] spaces[i + 1]);
        spaces_are_passed_over(fewer, rest);
        assert(text.drop_first() =~= fewer + rest);
    }
}

/// Whether a text is nothing but spaces, tabs and ends of lines.
pub open spec fn blank(spaces: Seq<char>) -> bool {
    forall|i: int|
        0 <= i < spaces.len() ==> (#[trigger] spaces[i]) == ' ' || spaces[i] == '\n' || spaces[i]
            == '\t' || spaces[i] == '\r'
}

/// Whether a text does not begin with what may stand between the parts of
/// another.
pub open spec fn begins(text: Seq<char>) -> bool {
    text.len() > 0 && text[0] != ' ' && text[0] != '\n' && text[0] != '\t' && text[0] != '\r'
}

/// A member is its key and the text of its value, with a colon between them,
/// whatever spaces stand around it and whatever comes next.
pub proof fn a_member_is_its_key_and_its_value(
    key_text: Seq<char>,
    key: Seq<char>,
    before: Seq<char>,
    value: Seq<char>,
    after: Seq<char>,
    rest: Seq<char>,
)
    requires
        blank(before) && blank(after) && begins(rest),
        opens_with(key_text, '"'),
        json_parse(key_text) == Ok::<JsonView, Seq<char>>(JsonView::Text(key)),
        leading_value(key_text + (before + (seq![':'] + (value + (after + rest))))) == Some(
            key_text,
        ),
        leading_value(value + (after + rest)) == Some(value),
    ensures
        first_member(key_text + (before + (seq![':'] + (value + (after + rest))))) == Some(
            (MemberView { key, value }, rest),
        ),
{
    let tail = value + (after + rest);
    let colon = seq![':'] + tail;
    let text = key_text + (before + colon);
    assert(text[0] == key_text[0]);
    assert(text.skip(key_text.len() as int) =~= before + colon);
    assert(colon[0] == ':');
    spaces_are_passed_over(before, colon);
    assert(colon.skip(1) =~= tail);
    assert(tail.skip(value.len() as int) =~= after + rest);
    spaces_are_passed_over(after, rest);
}

/// The members of an object are read one after the other, up to its end: what
/// follows a comma is read as well, and a closing brace, with nothing but spaces
/// behind it, ends the object.
pub proof fn members_are_read_one_after_the_other(
    text: Seq<char>,
    member: MemberView,
    spaces: Seq<char>,
    more: Seq<char>,
)
    requires
        blank(spaces),
    ensures
        text.len() > 1 + spaces.len() && first_member(text) == Some(
            (member, seq!['}'] + spaces),
        ) ==> members_from(text) == Some(seq![member]),
        text.len() > 1 + spaces.len() + more.len() && begins(more) && first_member(text) == Some(
            (member, seq![','] + (spaces + more)),
        ) ==> match members_from(more) {
            Some(others) => members_from(text) == Some(seq![member] + others),
            None => members_from(text) is None,
        },
{
    let none = Seq::<char>::empty();
    spaces_are_passed_over(spaces, none);
    assert(spaces + none =~= spaces);
    assert((seq!['}'] + spaces).skip(1) =~= spaces);
    assert((seq![','] + (spaces + more)).skip(1) =~= spaces + more);
    if begins(more) {
        spaces_are_passed_over(spaces, more);
    }
}

/// An object stands between braces, with spaces around it or none; without members
/// it is empty, and what is no object has none.
pub proof fn an_object_stands_between_braces(
    before: Seq<char>,
    inner: Seq<char>,
    between: Seq<char>,
    after: Seq<char>,
)
    requires
        blank(before) && blank(between) && blank(after),
    ensures
        members_in(before + (seq!['{'] + (between + (seq!['}'] + after)))) == Some(
            Seq::<MemberView>::empty(),
        ),
        begins(inner) && inner[0] != '}' ==> members_in(before + (seq!['{'] + (between + inner)))
            == members_from(inner),
        begins(inner) && inner[0] != '{' ==> members_in(before + inner) is None,
        members_in(before) is None,
{
    let none = Seq::<char>::empty();
    let end = seq!['}'] + after;
    let object = seq!['{'] + (between + end);
    spaces_are_passed_over(before, object);
    assert(object.skip(1) =~= between + end);
    spaces_are_passed_over(between, end);
    assert(end.skip(1) =~= after);
    spaces_are_passed_over(after, none);
    assert(after + none =~= after);
    spaces_are_passed_over(before, none);
    assert(before + none =~= before);
    if begins(inner) {
        let other = seq!['{'] + (between + inner);
        spaces_are_passed_over(before, other);
        assert(other.skip(1) =~= between + inner);
        spaces_are_passed_over(between, inner);
        spaces_are_passed_over(before, inner);
    }
}

} // verus!
