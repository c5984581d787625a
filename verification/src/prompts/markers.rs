//! Looking for telling words in a question.
use vstd::prelude::*;
use vstd::string::*;

use crate::agent::tool_list::str_views;
use crate::text::{
    alphanumeric, contains, find_from, is_alphanumeric, matches_at, occurs_at, starts_with,
    to_chars,
};

verus! {

/// One of the markers stands in the text.
pub open spec fn any_in(text: Seq<char>, markers: Seq<Seq<char>>) -> bool {
    exists|i: int| 0 <= i < markers.len() && contains(text, #[trigger] markers[i])
}

/// The text begins with one of the markers.
pub open spec fn any_opens(text: Seq<char>, markers: Seq<Seq<char>>) -> bool {
    exists|i: int| 0 <= i < markers.len() && starts_with(text, #[trigger] markers[i])
}

/// A word stands in the text at a position, with no letter or digit next to
/// it.
pub open spec fn word_at(text: Seq<char>, word: Seq<char>, i: int) -> bool {
    &&& occurs_at(text, word, i)
    &&& i == 0 || !alphanumeric(text[i - 1])
    &&& i + word.len() == text.len() || !alphanumeric(text[i + word.len()])
}

/// A word stands in the text as a word.
pub open spec fn has_word(text: Seq<char>, word: Seq<char>) -> bool {
    exists|i: int| word_at(text, word, i)
}

/// One of the words stands in the text as a word.
pub open spec fn any_word(text: Seq<char>, words: Seq<Seq<char>>) -> bool {
    exists|i: int| 0 <= i < words.len() && has_word(text, #[trigger] words[i])
}

/// Whether one of the markers stands in the text.
pub fn contains_any(text: &Vec<char>, markers: &Vec<&'static str>) -> (r: bool)
    ensures
        r == any_in(text@, str_views(markers@)),
{
    let mut i: usize = 0;
    while i < markers.len()
        invariant
            i <= markers@.len(),
            forall|j: int| 0 <= j < i ==> !contains(text@, (#[trigger] markers@[j])@),
        decreases markers@.len() - i,
    {
        let marker: Vec<char> = to_chars(markers[i]);
        if find_from(text, &marker, 0).is_some() {
            proof {
                assert(contains(text@, str_views(markers@)[i as int]));
            }
            return true;
        }
        i += 1;
    }
    proof {
        assert forall|j: int| 0 <= j < str_views(markers@).len() implies !contains(
            text@,
            #[trigger] str_views(markers@)[j],
        ) by {
            assert(!contains(text@, markers@[j]@));
        }
    }
    false
}

/// Whether the text begins with one of the markers.
pub fn opens_with_any(text: &Vec<char>, markers: &Vec<&'static str>) -> (r: bool)
    ensures
        r == any_opens(text@, str_views(markers@)),
{
    let mut i: usize = 0;
    while i < markers.len()
        invariant
            i <= markers@.len(),
            forall|j: int| 0 <= j < i ==> !starts_with(text@, (#[trigger] markers@[j])@),
        decreases markers@.len() - i,
    {
        let marker: Vec<char> = to_chars(markers[i]);
        if matches_at(text, &marker, 0) {
            proof {
                assert(starts_with(text@, str_views(markers@)[i as int]));
            }
            return true;
        }
        i += 1;
    }
    proof {
        assert forall|j: int| 0 <= j < str_views(markers@).len() implies !starts_with(
            text@,
            #[trigger] str_views(markers@)[j],
        ) by {
            assert(!starts_with(text@, markers@[j]@));
        }
    }
    false
}

/// Whether a word stands in the text as a word.
pub fn word_in(text: &Vec<char>, word: &str) -> (r: bool)
    ensures
        r == has_word(text@, word@),
{
    let w: Vec<char> = to_chars(word);
    let total: usize = text.len();
    let mut from: usize = 0;
    loop
        invariant
            w@ == word@,
            total == text@.len(),
            from <= text@.len() + 1,
            forall|j: int| 0 <= j < from ==> !word_at(text@, word@, j),
        ensures
            forall|j: int| 0 <= j ==> !word_at(text@, word@, j),
        decreases text@.len() + 1 - from,
    {
        match find_from(text, &w, from) {
            None => {
                break;
            },
            Some(p) => {
                let before_ok: bool = p == 0 || !is_alphanumeric(text[p - 1]);
                let after_ok: bool = p + w.len() == total || !is_alphanumeric(text[p + w.len()]);
                if before_ok && after_ok {
                    proof {
                        assert(word_at(text@, word@, p as int));
                    }
                    return true;
                }
                if p == total {
                    proof {
                        assert forall|j: int| 0 <= j implies !word_at(text@, word@, j) by {
                            if j > p {
                                assert(!occurs_at(text@, word@, j));
                            }
                        }
                    }
                    break;
                }
                from = p + 1;
            },
        }
    }
    false
}

/// Whether one of the words stands in the text as a word.
pub fn has_any_word(text: &Vec<char>, words: &Vec<&'static str>) -> (r: bool)
    ensures
        r == any_word(text@, str_views(words@)),
{
    let mut i: usize = 0;
    while i < words.len()
        invariant
            i <= words@.len(),
            forall|j: int| 0 <= j < i ==> !has_word(text@, (#[trigger] words@[j])@),
        decreases words@.len() - i,
    {
        if word_in(text, words[i]) {
            proof {
                assert(has_word(text@, str_views(words@)[i as int]));
            }
            return true;
        }
        i += 1;
    }
    proof {
        assert forall|j: int| 0 <= j < str_views(words@).len() implies !has_word(
            text@,
            #[trigger] str_views(words@)[j],
        ) by {
            assert(!has_word(text@, words@[j]@));
        }
    }
    false
}

} // verus!
