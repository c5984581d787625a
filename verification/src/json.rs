//! JSON values: an owned tree, its mathematical view, and the readings that
//! the rest of the library makes of it.
use vstd::prelude::*;
use vstd::string::*;

use crate::text::{same, views};
use serde_json::Value;

verus! {

/// A JSON number. Integers are held as such; any other number is held as the
/// bits of its IEEE-754 double and as its shortest decimal notation.
#[derive(Debug, Clone, PartialEq, Eq)]
pub enum JsonNumber {
    Unsigned(u64),
    Negative(i64),
    Float { bits: u64, text: String },
}

/// A JSON value. An object is the list of its entries.
#[derive(Debug, PartialEq, Eq)]
pub enum Json {
    Null,
    Bool(bool),
    Number(JsonNumber),
    Text(String),
    Array(Vec<Json>),
    Object(Vec<(String, Json)>),
}

/// The view of a JSON number.
pub enum JsonNumberView {
    Unsigned(u64),
    Negative(i64),
    Float { bits: u64, text: Seq<char> },
}

/// The view of a JSON value.
pub enum JsonView {
    Null,
    Bool(bool),
    Number(JsonNumberView),
    Text(Seq<char>),
    Array(Seq<JsonView>),
    Object(Seq<(Seq<char>, JsonView)>),
}

impl View for JsonNumber {
    type V = JsonNumberView;

    open spec fn view(&self) -> JsonNumberView {
        match *self {
            JsonNumber::Unsigned(n) => JsonNumberView::Unsigned(n),
            JsonNumber::Negative(n) => JsonNumberView::Negative(n),
            JsonNumber::Float { bits, text } => JsonNumberView::Float { bits, text: text@ },
        }
    }
}

impl View for Json {
    type V = JsonView;

    open spec fn view(&self) -> JsonView {
        json_view(*self)
    }
}

/// The view of a value: texts become character sequences, lists sequences.
pub open spec fn json_view(j: Json) -> JsonView
    decreases j,
{
    match j {
        Json::Null => JsonView::Null,
        Json::Bool(b) => JsonView::Bool(b),
        Json::Number(n) => JsonView::Number(n@),
        Json::Text(s) => JsonView::Text(s@),
        Json::Array(items) => JsonView::Array(
            Seq::new(
                items@.len(),
                |i: int|
                    if 0 <= i < items@.len() {
                        json_view(items@[i])
                    } else {
                        JsonView::Null
                    },
            ),
        ),
        Json::Object(entries) => JsonView::Object(
            Seq::new(
                entries@.len(),
                |i: int|
                    if 0 <= i < entries@.len() {
                        (entries@[i].0@, json_view(entries@[i].1))
                    } else {
                        (Seq::<char>::empty(), JsonView::Null)
                    },
            ),
        ),
    }
}

/// The value of the first entry with the given key.
pub open spec fn entry(entries: Seq<(Seq<char>, JsonView)>, key: Seq<char>) -> Option<JsonView>
    decreases entries.len(),
{
    if entries.len() == 0 {
        None
    } else if entries[0].0 == key {
        Some(entries[0].1)
    } else {
        entry(entries.drop_first(), key)
    }
}

impl JsonView {
    /// The field of an object; nothing else has fields.
    pub open spec fn get(self, key: Seq<char>) -> Option<JsonView> {
        match self {
            JsonView::Object(entries) => entry(entries, key),
            _ => None,
        }
    }

    /// The text of a text value.
    pub open spec fn as_str(self) -> Option<Seq<char>> {
        match self {
            JsonView::Text(s) => Some(s),
            _ => None,
        }
    }

    /// The items of an array.
    pub open spec fn as_array(self) -> Option<Seq<JsonView>> {
        match self {
            JsonView::Array(items) => Some(items),
            _ => None,
        }
    }

    /// The truth value of a boolean.
    pub open spec fn as_bool(self) -> Option<bool> {
        match self {
            JsonView::Bool(b) => Some(b),
            _ => None,
        }
    }

    /// The value of a non-negative integer.
    pub open spec fn as_u64(self) -> Option<u64> {
        match self {
            JsonView::Number(JsonNumberView::Unsigned(n)) => Some(n),
            _ => None,
        }
    }

    /// The value of an integer that fits in 64 bits with a sign.
    pub open spec fn as_i64(self) -> Option<i64> {
        match self {
            JsonView::Number(JsonNumberView::Unsigned(n)) => if n <= i64::MAX {
                Some(n as i64)
            } else {
                None
            },
            JsonView::Number(JsonNumberView::Negative(n)) => Some(n),
            _ => None,
        }
    }

    /// The integer in the field `key`, where there is one.
    pub open spec fn i64_field(self, key: Seq<char>) -> Option<i64> {
        match self.get(key) {
            Some(v) => v.as_i64(),
            None => None,
        }
    }

    /// The texts among the items of the array in the field `key`.
    pub open spec fn texts_field(self, key: Seq<char>) -> Seq<Seq<char>> {
        match self.array_field(key) {
            Some(items) => texts_of(items),
            None => Seq::empty(),
        }
    }

    /// The text in the field `key`; empty where there is none.
    pub open spec fn text_or_empty(self, key: Seq<char>) -> Seq<char> {
        match self.str_field(key) {
            Some(t) => t,
            None => Seq::empty(),
        }
    }

    /// The text in the field `key`, where there is one.
    pub open spec fn str_field(self, key: Seq<char>) -> Option<Seq<char>> {
        match self.get(key) {
            Some(v) => v.as_str(),
            None => None,
        }
    }

    /// The non-negative integer in the field `key`, where there is one.
    pub open spec fn u64_field(self, key: Seq<char>) -> Option<u64> {
        match self.get(key) {
            Some(v) => v.as_u64(),
            None => None,
        }
    }

    /// The items of the array in the field `key`, where there is one.
    pub open spec fn array_field(self, key: Seq<char>) -> Option<Seq<JsonView>> {
        match self.get(key) {
            Some(v) => v.as_array(),
            None => None,
        }
    }
}

/// The texts among some values, in order.
pub open spec fn texts_of(items: Seq<JsonView>) -> Seq<Seq<char>>
    decreases items.len(),
{
    if items.len() == 0 {
        Seq::empty()
    } else {
        let before = texts_of(items.drop_last());
        match items.last() {
            JsonView::Text(t) => before.push(t),
            _ => before,
        }
    }
}

/// The view of an optional text.
pub open spec fn opt_view(s: Option<String>) -> Option<Seq<char>> {
    match s {
        Some(t) => Some(t@),
        None => None,
    }
}

/// The views of a sequence of values.
pub open spec fn json_views(items: Seq<Json>) -> Seq<JsonView> {
    Seq::new(items.len(), |i: int| items[i]@)
}

/// The views of a sequence of entries.
pub open spec fn entry_views(entries: Seq<(String, Json)>) -> Seq<(Seq<char>, JsonView)> {
    Seq::new(entries.len(), |i: int| (entries[i].0@, entries[i].1@))
}

/// The view of an array is the sequence of its items' views.
pub proof fn array_view(items: Vec<Json>)
    ensures
        Json::Array(items)@ == JsonView::Array(json_views(items@)),
{
    reveal_with_fuel(json_view, 2);
    assert(Json::Array(items)@->Array_0 =~= json_views(items@));
}

/// The view of an object is the sequence of its entries' views.
pub proof fn object_view(entries: Vec<(String, Json)>)
    ensures
        Json::Object(entries)@ == JsonView::Object(entry_views(entries@)),
{
    reveal_with_fuel(json_view, 2);
    assert(Json::Object(entries)@->Object_0 =~= entry_views(entries@));
}

/// What `entry` finds: the first entry with the key, or none.
pub proof fn entry_is_first(entries: Seq<(Seq<char>, JsonView)>, key: Seq<char>, at: int)
    requires
        0 <= at <= entries.len(),
        forall|j: int| 0 <= j < at ==> (#[trigger] entries[j]).0 != key,
    ensures
        at < entries.len() && entries[at].0 == key ==> entry(entries, key) == Some(entries[at].1),
        at == entries.len() ==> entry(entries, key) is None,
    decreases entries.len(),
{
    if entries.len() > 0 && at > 0 {
        assert(entries[0].0 != key);
        let rest = entries.drop_first();
        assert forall|j: int| 0 <= j < at - 1 implies (#[trigger] rest[j]).0 != key by {
            assert(rest[j] == entries[j + 1]);
        }
        entry_is_first(rest, key, at - 1);
    }
}

impl Json {
    /// The field `key` of an object.
    pub fn get(&self, key: &str) -> (r: Option<&Json>)
        ensures
            match r {
                Some(v) => self@.get(key@) == Some(v@),
                None => self@.get(key@) is None,
            },
    {
        match self {
            Json::Object(entries) => {
                let mut i: usize = 0;
                proof {
                    object_view(*entries);
                }
                while i < entries.len()
                    invariant
                        i <= entries@.len(),
                        *self == Json::Object(*entries),
                        self@ == JsonView::Object(entry_views(entries@)),
                        forall|j: int| 0 <= j < i ==> (#[trigger] entries@[j]).0@ != key@,
                    decreases entries@.len() - i,
                {
                    if same(entries[i].0.as_str(), key) {
                        proof {
                            entry_is_first(entry_views(entries@), key@, i as int);
                        }
                        return Some(&entries[i].1);
                    }
                    i += 1;
                }
                proof {
                    entry_is_first(entry_views(entries@), key@, i as int);
                }
                None
            },
            _ => None,
        }
    }

    /// The text of a text value.
    pub fn as_str(&self) -> (r: Option<String>)
        ensures
            opt_view(r) == self@.as_str(),
    {
        match self {
            Json::Text(s) => Some(s.clone()),
            _ => None,
        }
    }

    /// The truth value of a boolean.
    pub fn as_bool(&self) -> (r: Option<bool>)
        ensures
            r == self@.as_bool(),
    {
        match self {
            Json::Bool(b) => Some(*b),
            _ => None,
        }
    }

    /// The value of a non-negative integer.
    pub fn as_u64(&self) -> (r: Option<u64>)
        ensures
            r == self@.as_u64(),
    {
        match self {
            Json::Number(JsonNumber::Unsigned(n)) => Some(*n),
            _ => None,
        }
    }

    /// The items of an array.
    pub fn as_array(&self) -> (r: Option<&Vec<Json>>)
        ensures
            match r {
                Some(v) => self@.as_array() == Some(json_views(v@)),
                None => self@.as_array() is None,
            },
    {
        match self {
            Json::Array(items) => {
                proof {
                    array_view(*items);
                }
                Some(items)
            },
            _ => None,
        }
    }

    /// The text in the field `key`.
    pub fn str_field(&self, key: &str) -> (r: Option<String>)
        ensures
            opt_view(r) == self@.str_field(key@),
    {
        match self.get(key) {
            Some(v) => v.as_str(),
            None => None,
        }
    }

    /// The non-negative integer in the field `key`.
    pub fn u64_field(&self, key: &str) -> (r: Option<u64>)
        ensures
            r == self@.u64_field(key@),
    {
        match self.get(key) {
            Some(v) => v.as_u64(),
            None => None,
        }
    }

    /// The items of the array in the field `key`.
    pub fn array_field(&self, key: &str) -> (r: Option<&Vec<Json>>)
        ensures
            match r {
                Some(v) => self@.array_field(key@) == Some(json_views(v@)),
                None => self@.array_field(key@) is None,
            },
    {
        match self.get(key) {
            Some(v) => v.as_array(),
            None => None,
        }
    }

    /// The value of an integer that fits in 64 bits with a sign.
    pub fn as_i64(&self) -> (r: Option<i64>)
        ensures
            r == self@.as_i64(),
    {
        match self {
            Json::Number(JsonNumber::Unsigned(n)) => if *n <= 0x7FFF_FFFF_FFFF_FFFF {
                Some(*n as i64)
            } else {
                None
            },
            Json::Number(JsonNumber::Negative(n)) => Some(*n),
            _ => None,
        }
    }

    /// The integer in the field `key`.
    pub fn i64_field(&self, key: &str) -> (r: Option<i64>)
        ensures
            r == self@.i64_field(key@),
    {
        match self.get(key) {
            Some(v) => v.as_i64(),
            None => None,
        }
    }

    /// The texts among the items of the array in the field `key`.
    pub fn texts_field(&self, key: &str) -> (r: Vec<String>)
        ensures
            views(r@) == self@.texts_field(key@),
    {
        let mut out: Vec<String> = Vec::new();
        proof {
            assert(views(out@) =~= Seq::empty());
        }
        match self.array_field(key) {
            Some(items) => {
                let ghost all = json_views(items@);
                let mut i: usize = 0;
                proof {
                    assert(all.take(0) =~= Seq::empty());
                }
                while i < items.len()
                    invariant
                        i <= items@.len(),
                        all == json_views(items@),
                        views(out@) == texts_of(all.take(i as int)),
                    decreases items@.len() - i,
                {
                    let ghost before = views(out@);
                    proof {
                        assert(all.take(i as int + 1).drop_last() =~= all.take(i as int));
                        assert(all.take(i as int + 1).last() == items@[i as int]@);
                    }
                    match &items[i] {
                        Json::Text(t) => {
                            out.push(t.clone());
                            proof {
                                assert(views(out@) =~= before.push(t@));
                            }
                        },
                        _ => {},
                    }
                    i += 1;
                }
                proof {
                    assert(all.take(i as int) =~= all);
                }
            },
            None => {},
        }
        out
    }

    /// The text in the field `key`; empty where there is none.
    pub fn text_or_empty(&self, key: &str) -> (r: String)
        ensures
            r@ == self@.text_or_empty(key@),
    {
        match self.str_field(key) {
            Some(t) => t,
            None => String::new(),
        }
    }

    /// A value equal to this one.
    pub fn copy(&self) -> (r: Json)
        ensures
            r@ == self@,
        decreases self,
    {
        match self {
            Json::Null => Json::Null,
            Json::Bool(b) => Json::Bool(*b),
            Json::Number(n) => Json::Number(
                match n {
                    JsonNumber::Unsigned(u) => JsonNumber::Unsigned(*u),
                    JsonNumber::Negative(i) => JsonNumber::Negative(*i),
                    JsonNumber::Float { bits, text } => JsonNumber::Float {
                        bits: *bits,
                        text: text.clone(),
                    },
                },
            ),
            Json::Text(s) => Json::Text(s.clone()),
            Json::Array(items) => {
                let mut out: Vec<Json> = Vec::new();
                let mut i: usize = 0;
                while i < items.len()
                    invariant
                        i <= items@.len(),
                        *self == Json::Array(*items),
                        out@.len() == i,
                        forall|j: int| 0 <= j < i ==> (#[trigger] out@[j])@ == items@[j]@,
                    decreases items@.len() - i,
                {
                    assert(decreases_to!(*self => self->Array_0));
                    assert(decreases_to!(*items => items@));
                    assert(decreases_to!(items@ => items@[i as int]));
                    out.push(items[i].copy());
                    i += 1;
                }
                proof {
                    array_view(*items);
                    array_view(out);
                    assert(json_views(out@) =~= json_views(items@));
                }
                Json::Array(out)
            },
            Json::Object(entries) => {
                let mut out: Vec<(String, Json)> = Vec::new();
                let mut i: usize = 0;
                while i < entries.len()
                    invariant
                        i <= entries@.len(),
                        *self == Json::Object(*entries),
                        out@.len() == i,
                        forall|j: int|
                            0 <= j < i ==> (#[trigger] out@[j]).0@ == entries@[j].0@
                                && out@[j].1@ == entries@[j].1@,
                    decreases entries@.len() - i,
                {
                    assert(decreases_to!(*self => self->Object_0));
                    assert(decreases_to!(*entries => entries@));
                    assert(decreases_to!(entries@ => entries@[i as int]));
                    assert(decreases_to!(entries@[i as int] => entries@[i as int].1));
                    out.push((entries[i].0.clone(), entries[i].1.copy()));
                    i += 1;
                }
                proof {
                    object_view(*entries);
                    object_view(out);
                    assert(entry_views(out@) =~= entry_views(entries@));
                }
                Json::Object(out)
            },
        }
    }
}

impl Clone for Json {
    fn clone(&self) -> (r: Json)
        ensures
            r@ == self@,
    {
        self.copy()
    }
}

/// `serde_json::Value`, the tree that the crate reads and writes.
#[verifier::external_type_specification]
#[verifier::external_body]
pub struct ExValue(serde_json::Value);

/// The number in a `serde_json::Value`, which is asked, in this order, for its
/// value as `u64`, as `i64` and as a double. Nothing is claimed of the result
/// here: `read_json` names the whole of reading a text.
#[verifier::external_body]
fn from_number(n: &Value) -> (r: JsonNumber) {
    match (n.as_u64(), n.as_i64()) {
        (Some(u), _) => JsonNumber::Unsigned(u),
        (None, Some(i)) => JsonNumber::Negative(i),
        (None, None) => {
            JsonNumber::Float { bits: n.as_f64().map_or(0, |f| f.to_bits()), text: n.to_string() }
        },
    }
}

/// A `serde_json::Value` as a value of this module, variant by variant. Nothing
/// is claimed of the result here: `read_json` names the whole of reading a
/// text.
#[verifier::external_body]
fn from_value(v: Value) -> (r: Json) {
    match v {
        Value::Null => Json::Null,
        Value::Bool(b) => Json::Bool(b),
        n @ Value::Number(_) => Json::Number(from_number(&n)),
        Value::String(s) => Json::Text(s),
        Value::Array(a) => Json::Array(a.into_iter().map(from_value).collect()),
        Value::Object(o) => Json::Object(o.into_iter().map(|(k, v)| (k, from_value(v))).collect()),
    }
}

/// A number as a `serde_json::Value`, one that is no integer by its notation.
/// Nothing is claimed of the result here: `render_json` names the whole of
/// writing a value.
#[verifier::external_body]
fn to_number(n: &JsonNumber) -> (r: Value) {
    match n {
        JsonNumber::Unsigned(u) => Value::from(*u),
        JsonNumber::Negative(i) => Value::from(*i),
        JsonNumber::Float { text, .. } => text.parse().map_or(Value::Null, Value::Number),
    }
}

/// A value of this module as a `serde_json::Value`, variant by variant. Nothing
/// is claimed of the result here: `render_json` names the whole of writing a
/// value.
#[verifier::external_body]
fn to_value(j: &Json) -> (r: Value) {
    match j {
        Json::Null => Value::Null,
        Json::Bool(b) => Value::Bool(*b),
        Json::Number(n) => to_number(n),
        Json::Text(s) => Value::String(s.clone()),
        Json::Array(a) => Value::Array(a.iter().map(to_value).collect()),
        Json::Object(o) => Value::Object(o.iter().map(|(k, v)| (k.clone(), to_value(v))).collect()),
    }
}

/// What `serde_json::from_str` reads in a text: the value, or the message of
/// its error.
pub uninterp spec fn json_parse(text: Seq<char>) -> Result<JsonView, Seq<char>>;

/// `serde_json::from_str`: reads a JSON text. The result depends on the text
/// alone and is named `json_parse`.
#[verifier::external_body]
pub(crate) fn read_json(text: &str) -> (r: Result<Json, String>)
    ensures
        match r {
            Ok(v) => json_parse(text@) == Ok::<JsonView, Seq<char>>(v@),
            Err(e) => json_parse(text@) == Err::<JsonView, Seq<char>>(e@),
        },
{
    serde_json::from_str::<serde_json::Value>(text).map(from_value).map_err(|e| e.to_string())
}

/// What `serde_json::Value`'s `Display` writes for a value.
pub uninterp spec fn json_render(v: JsonView) -> Seq<char>;

/// `serde_json::Value::to_string`: writes a value as compact JSON. The result
/// depends on the value alone and is named `json_render`.
#[verifier::external_body]
pub(crate) fn render_json(j: &Json) -> (r: String)
    ensures
        r@ == json_render(j@),
{
    to_value(j).to_string()
}

/// Writes a value as compact JSON.
pub fn json_text(j: &Json) -> (r: String)
    ensures
        r@ == json_render(j@),
{
    render_json(j)
}

/// What is said of a body that is no JSON text.
pub const UNREADABLE_BODY: &'static str = "error decoding response body";

/// No entries.
pub fn no_entries() -> (r: Vec<(String, Json)>)
    ensures
        entry_views(r@) == Seq::<(Seq<char>, JsonView)>::empty(),
{
    let r: Vec<(String, Json)> = Vec::new();
    proof {
        assert(entry_views(r@) =~= Seq::empty());
    }
    r
}

/// Adds an entry at the end.
pub fn push_entry(entries: &mut Vec<(String, Json)>, key: &str, value: Json)
    ensures
        entry_views(final(entries)@) == entry_views(old(entries)@).push((key@, value@)),
{
    entries.push((key.to_owned(), value));
    proof {
        assert(entry_views(entries@) =~= entry_views(old(entries)@).push((key@, value@)));
    }
}

/// Adds a value at the end.
pub fn push_value(items: &mut Vec<Json>, value: Json)
    ensures
        json_views(final(items)@) == json_views(old(items)@).push(value@),
{
    items.push(value);
    proof {
        assert(json_views(items@) =~= json_views(old(items)@).push(value@));
    }
}

/// No values.
pub fn no_values() -> (r: Vec<Json>)
    ensures
        json_views(r@) == Seq::<JsonView>::empty(),
{
    let r: Vec<Json> = Vec::new();
    proof {
        assert(json_views(r@) =~= Seq::empty());
    }
    r
}

/// The object with the given entries.
pub fn object(entries: Vec<(String, Json)>) -> (r: Json)
    ensures
        r@ == JsonView::Object(entry_views(entries@)),
{
    proof {
        object_view(entries);
    }
    Json::Object(entries)
}

/// The array of the given values.
pub fn array(items: Vec<Json>) -> (r: Json)
    ensures
        r@ == JsonView::Array(json_views(items@)),
{
    proof {
        array_view(items);
    }
    Json::Array(items)
}

/// A text as a value.
pub fn text_value(text: &str) -> (r: Json)
    ensures
        r@ == JsonView::Text(text@),
{
    Json::Text(text.to_owned())
}

/// A number without a sign as a value.
pub fn number_value(n: u64) -> (r: Json)
    ensures
        r@ == JsonView::Number(JsonNumberView::Unsigned(n)),
{
    Json::Number(JsonNumber::Unsigned(n))
}

/// The object with one entry.
pub fn object_of_one(key: &str, value: Json) -> (r: Json)
    ensures
        r@ == JsonView::Object(seq![(key@, value@)]),
{
    let mut entries: Vec<(String, Json)> = no_entries();
    push_entry(&mut entries, key, value);
    object(entries)
}

/// The object with two entries.
pub fn object_of_two(key_1: &str, value_1: Json, key_2: &str, value_2: Json) -> (r: Json)
    ensures
        r@ == JsonView::Object(seq![(key_1@, value_1@), (key_2@, value_2@)]),
{
    let mut entries: Vec<(String, Json)> = no_entries();
    push_entry(&mut entries, key_1, value_1);
    push_entry(&mut entries, key_2, value_2);
    proof {
        assert(entry_views(entries@) =~= seq![(key_1@, value_1@), (key_2@, value_2@)]);
    }
    object(entries)
}

/// The object with three entries.
pub fn object_of_three(
    key_1: &str,
    value_1: Json,
    key_2: &str,
    value_2: Json,
    key_3: &str,
    value_3: Json,
) -> (r: Json)
    ensures
        r@ == JsonView::Object(seq![(key_1@, value_1@), (key_2@, value_2@), (key_3@, value_3@)]),
{
    let mut entries: Vec<(String, Json)> = no_entries();
    push_entry(&mut entries, key_1, value_1);
    push_entry(&mut entries, key_2, value_2);
    push_entry(&mut entries, key_3, value_3);
    proof {
        assert(entry_views(entries@) =~= seq![
            (key_1@, value_1@),
            (key_2@, value_2@),
            (key_3@, value_3@),
        ]);
    }
    object(entries)
}

/// The array of one value.
pub fn array_of_one(value: Json) -> (r: Json)
    ensures
        r@ == JsonView::Array(seq![value@]),
{
    let mut items: Vec<Json> = no_values();
    push_value(&mut items, value);
    array(items)
}

/// Reads a JSON text.
pub fn parse_json(text: &str) -> (r: Result<Json, String>)
    ensures
        match r {
            Ok(v) => json_parse(text@) == Ok::<JsonView, Seq<char>>(v@),
            Err(e) => json_parse(text@) == Err::<JsonView, Seq<char>>(e@),
        },
{
    read_json(text)
}

/// The texts among some values are read in order, and nothing else is: one value
/// after the other, a text adds itself and anything else adds nothing.
pub proof fn texts_are_read_in_order(first: Seq<JsonView>, second: Seq<JsonView>, text: Seq<char>)
    ensures
        texts_of(first + second) == texts_of(first) + texts_of(second),
        texts_of(seq![JsonView::Text(text)]) == seq![text],
        (forall|i: int| 0 <= i < first.len() ==> !((#[trigger] first[i]) is Text)) ==> texts_of(
            first,
        ).len() == 0,
        (forall|i: int| 0 <= i < first.len() ==> ((#[trigger] first[i]) is Text)) ==> texts_of(
            first,
        ).len() == first.len() && forall|i: int|
            0 <= i < first.len() ==> first[i] == JsonView::Text(#[trigger] texts_of(first)[i]),
    decreases second.len(), first.len(),
{
    let one = seq![JsonView::Text(text)];
    assert(one.drop_last() =~= Seq::empty());
    assert(texts_of(one.drop_last()) == Seq::<Seq<char>>::empty());
    assert(one.last() == JsonView::Text(text));
    assert(texts_of(one) =~= seq![text]);
    if second.len() > 0 {
        texts_are_read_in_order(first, second.drop_last(), text);
        assert((first + second).drop_last() =~= first + second.drop_last());
        assert(texts_of(first + second) =~= texts_of(first) + texts_of(second));
    } else {
        assert(first + second =~= first);
        assert(texts_of(first) + texts_of(second) =~= texts_of(first));
        if first.len() > 0 {
            let before = first.drop_last();
            texts_are_read_in_order(before, second, text);
            assert forall|i: int| 0 <= i < before.len() implies before[i] == #[trigger] first[i] by {}
            assert(first[first.len() - 1] == first.last());
            if forall|i: int| 0 <= i < first.len() ==> !((#[trigger] first[i]) is Text) {
                assert forall|i: int| 0 <= i < before.len() implies !((#[trigger] before[i])
                    is Text) by {
                    assert(!(first[i] is Text));
                }
            }
            if forall|i: int| 0 <= i < first.len() ==> ((#[trigger] first[i]) is Text) {
                assert forall|i: int| 0 <= i < before.len() implies ((#[trigger] before[i])
                    is Text) by {
                    assert(first[i] is Text);
                }
                assert forall|i: int| 0 <= i < first.len() implies first[i] == JsonView::Text(
                    #[trigger] texts_of(first)[i],
                ) by {
                    if i < before.len() {
                        assert(texts_of(first)[i] == texts_of(before)[i]);
                        assert(before[i] == JsonView::Text(texts_of(before)[i]));
                    }
                }
            }
        }
    }
}

/// A member of an object is found under its key: the value under a key is that
/// of the first member with the key, and there is none where no member has it.
pub proof fn members_are_found_by_key(
    entries: Seq<(Seq<char>, JsonView)>,
    key: Seq<char>,
    at: int,
)
    ensures
        0 <= at < entries.len() && entries[at].0 == key && (forall|i: int|
            0 <= i < at ==> (#[trigger] entries[i]).0 != key) ==> JsonView::Object(entries).get(key)
            == Some(entries[at].1),
        (forall|i: int| 0 <= i < entries.len() ==> (#[trigger] entries[i]).0 != key)
            ==> JsonView::Object(entries).get(key) is None,
{
    if 0 <= at < entries.len() && entries[at].0 == key && (forall|i: int|
        0 <= i < at ==> (#[trigger] entries[i]).0 != key) {
        entry_is_first(entries, key, at);
    }
    if forall|i: int| 0 <= i < entries.len() ==> (#[trigger] entries[i]).0 != key {
        entry_is_first(entries, key, entries.len() as int);
    }
}

/// Every entry of an object whose keys are all different is found by its key, and
/// no other is.
pub proof fn distinct_keys_are_all_found(entries: Seq<(Seq<char>, JsonView)>)
    requires
        forall|i: int, j: int|
            0 <= i < j < entries.len() ==> (#[trigger] entries[i]).0 != (#[trigger] entries[j]).0,
    ensures
        forall|i: int|
            0 <= i < entries.len() ==> JsonView::Object(entries).get((#[trigger] entries[i]).0)
                == Some(entries[i].1),
        forall|key: Seq<char>|
            (forall|i: int| 0 <= i < entries.len() ==> (#[trigger] entries[i]).0 != key)
                ==> #[trigger] JsonView::Object(entries).get(key) is None,
{
    assert forall|i: int| 0 <= i < entries.len() implies JsonView::Object(entries).get(
        (#[trigger] entries[i]).0,
    ) == Some(entries[i].1) by {
        members_are_found_by_key(entries, entries[i].0, i);
    }
    assert forall|key: Seq<char>|
        (forall|i: int|
            0 <= i < entries.len() ==> (#[trigger] entries[i]).0
                != key) implies #[trigger] JsonView::Object(entries).get(key) is None by {
        members_are_found_by_key(entries, key, 0);
    }
}

/// An integer is read as it is, as far as it fits, and nothing else is one.
pub proof fn an_integer_is_read_as_it_is(n: u64, m: i64, value: JsonView)
    ensures
        n <= i64::MAX ==> JsonView::Number(JsonNumberView::Unsigned(n)).as_i64() == Some(n as i64),
        n > i64::MAX ==> JsonView::Number(JsonNumberView::Unsigned(n)).as_i64() is None,
        JsonView::Number(JsonNumberView::Negative(m)).as_i64() == Some(m),
        value.as_i64() is Some ==> value is Number,
{
}

} // verus!
