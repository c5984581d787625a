//! What is asked of the retrieval service, and how its answers are read.
use vstd::prelude::*;
use vstd::string::*;

use crate::http_status::{is_status, is_success, status_line, status_text};
use crate::json::{
    distinct_keys_are_all_found, entry_views, object_of_one, object_view, opt_view, Json,
    JsonNumber, JsonNumberView, JsonView,
};
use crate::rag::process::{base_url_text, RagServiceHandle};

verus! {

/// A byte that stands for itself in an address.
pub open spec fn plain_in_address(b: u8) -> bool {
    ||| 0x41 <= b <= 0x5A
    ||| 0x61 <= b <= 0x7A
    ||| 0x30 <= b <= 0x39
    ||| b == 0x2D
    ||| b == 0x5F
    ||| b == 0x2E
    ||| b == 0x7E
}

/// A hexadecimal digit, in upper case.
pub open spec fn upper_hex(d: u8) -> char {
    if d < 10 {
        (48 + d) as char
    } else {
        (55 + d) as char
    }
}

/// How a byte is written in an address: itself, or a percent sign and its two
/// hexadecimal digits.
pub open spec fn escaped(b: u8) -> Seq<char> {
    if plain_in_address(b) {
        seq![b as char]
    } else {
        seq!['%', upper_hex(b / 16), upper_hex(b % 16)]
    }
}

/// How bytes are written in an address.
pub open spec fn escaped_all(bytes: Seq<u8>) -> Seq<char>
    decreases bytes.len(),
{
    if bytes.len() == 0 {
        Seq::empty()
    } else {
        escaped_all(bytes.drop_last()) + escaped(bytes.last())
    }
}

fn upper_hex_char(d: u8) -> (r: char)
    requires
        d < 16,
    ensures
        r == upper_hex(d),
{
    if d < 10 {
        (48u8 + d) as char
    } else {
        (55u8 + d) as char
    }
}

/// Writes a text so that it can stand in an address: the bytes of its UTF-8
/// form, escaped.
pub fn urlencode(value: &str) -> (r: String)
    ensures
        r@ == escaped_all(vstd::utf8::encode_utf8(value@)),
{
    let bytes: &[u8] = value.as_bytes();
    let ghost all = vstd::utf8::encode_utf8(value@);
    let mut out: String = String::new();
    let mut i: usize = 0;
    proof {
        assert(all.take(0) =~= Seq::empty());
    }
    while i < bytes.len()
        invariant
            i <= bytes@.len(),
            all == bytes@,
            out@ == escaped_all(all.take(i as int)),
        decreases bytes@.len() - i,
    {
        let b: u8 = bytes[i];
        let ghost before = out@;
        proof {
            assert(all.take(i as int + 1).drop_last() =~= all.take(i as int));
        }
        if (0x41 <= b && b <= 0x5A) || (0x61 <= b && b <= 0x7A) || (0x30 <= b && b <= 0x39) || b
            == 0x2D || b == 0x5F || b == 0x2E || b == 0x7E {
            out.push(b as char);
            proof {
                assert(out@ =~= before + escaped(b));
            }
        } else {
            out.push('%');
            out.push(upper_hex_char(b / 16));
            out.push(upper_hex_char(b % 16));
            proof {
                assert(out@ =~= before + escaped(b));
            }
        }
        i += 1;
    }
    proof {
        assert(all.take(i as int) =~= all);
    }
    out
}

/// An escaped text holds nothing but characters that stand for themselves in
/// an address, and percent signs.
pub proof fn escaped_text_is_plain(bytes: Seq<u8>)
    ensures
        forall|i: int|
            0 <= i < escaped_all(bytes).len() ==> {
                let c = #[trigger] escaped_all(bytes)[i];
                c == '%' || ((c as u32) < 128 && plain_in_address(c as u8))
            },
    decreases bytes.len(),
{
    if bytes.len() > 0 {
        escaped_text_is_plain(bytes.drop_last());
        let before = escaped_all(bytes.drop_last());
        let b = bytes.last();
        assert forall|i: int| 0 <= i < escaped_all(bytes).len() implies {
            let c = #[trigger] escaped_all(bytes)[i];
            c == '%' || ((c as u32) < 128 && plain_in_address(c as u8))
        } by {
            if i < before.len() {
                assert(escaped_all(bytes)[i] == before[i]);
            } else {
                assert(escaped_all(bytes)[i] == escaped(b)[i - before.len()]);
            }
        }
    }
}

/// How long a request may take, in seconds: processing a document can be slow.
pub const REQUEST_TIMEOUT_SECS: u64 = 120;

/// How long the service may take to say that it is healthy, and to be throttled,
/// in seconds.
pub const QUICK_TIMEOUT_SECS: u64 = 3;

/// How long the text of a document may take, in seconds.
pub const TEXT_TIMEOUT_SECS: u64 = 10;

/// The retrieval service, as it is spoken to.
#[derive(Debug)]
pub struct RagClient {
    pub base_url: String,
}

/// An address restricted to one agent's documents, where one is given.
pub open spec fn scoped(url: Seq<char>, agent_id: Option<Seq<char>>) -> Seq<char> {
    match agent_id {
        Some(id) => url + "?agent_id="@ + escaped_all(vstd::utf8::encode_utf8(id)),
        None => url,
    }
}

/// What is asked of a search.
pub open spec fn search_request(
    query: Seq<char>,
    top_k: u32,
    agent_id: Option<Seq<char>>,
) -> JsonView {
    JsonView::Object(
        seq![
            ("query"@, JsonView::Text(query)),
            ("top_k"@, JsonView::Number(JsonNumberView::Unsigned(top_k as u64))),
            (
                "agent_id"@,
                match agent_id {
                    Some(id) => JsonView::Text(id),
                    None => JsonView::Null,
                },
            ),
        ],
    )
}

impl RagClient {
    pub fn new() -> (r: RagClient)
        ensures
            r.base_url@ == base_url_text(),
    {
        RagClient { base_url: RagServiceHandle::base_url() }
    }

    /// The address of an endpoint.
    pub fn endpoint(&self, path: &str) -> (r: String)
        ensures
            r@ == self.base_url@ + path@,
    {
        let mut url: String = self.base_url.clone();
        url.append(path);
        url
    }

    /// The address of an endpoint, restricted to one agent's documents where
    /// one is given.
    pub fn endpoint_for(&self, path: &str, agent_id: &Option<String>) -> (r: String)
        ensures
            r@ == scoped(self.base_url@ + path@, opt_view(*agent_id)),
    {
        let mut url: String = self.endpoint(path);
        match agent_id {
            Some(id) => {
                url.append("?agent_id=");
                let escaped: String = urlencode(id.as_str());
                url.append(escaped.as_str());
                url
            },
            None => url,
        }
    }

    /// The address of one document, and of a part of it where `part` is not
    /// empty.
    pub fn document_endpoint(&self, document_id: &str, part: &str) -> (r: String)
        ensures
            r@ == self.base_url@ + "/documents/"@ + document_id@ + part@,
    {
        let mut url: String = self.endpoint("/documents/");
        url.append(document_id);
        url.append(part);
        url
    }

    /// What is asked of a search.
    pub fn search_body(&self, query: &str, top_k: u32, agent_id: &Option<String>) -> (r: Json)
        ensures
            r@ == search_request(query@, top_k, opt_view(*agent_id)),
    {
        let scope: Json = match agent_id {
            Some(id) => Json::Text(id.clone()),
            None => Json::Null,
        };
        let entries: Vec<(String, Json)> = vec![
            ("query".to_owned(), Json::Text(query.to_owned())),
            ("top_k".to_owned(), Json::Number(JsonNumber::Unsigned(top_k as u64))),
            ("agent_id".to_owned(), scope),
        ];
        proof {
            object_view(entries);
            assert(entry_views(entries@) =~= search_request(
                query@,
                top_k,
                opt_view(*agent_id),
            )->Object_0);
        }
        Json::Object(entries)
    }

    /// What is asked of the throttle.
    pub fn throttle_body(&self, active: bool) -> (r: Json)
        ensures
            r@ == JsonView::Object(seq![("active"@, JsonView::Bool(active))]),
    {
        object_of_one("active", Json::Bool(active))
    }
}

impl Default for RagClient {
    fn default() -> (r: RagClient)
        ensures
            r.base_url@ == base_url_text(),
    {
        RagClient::new()
    }
}

/// A request whose answer is its status alone.
#[derive(Debug, Clone, Copy, PartialEq, Eq, Structural)]
pub enum PlainRequest {
    Health,
    DeleteDocument,
    ClearKnowledgeBase,
    SetThrottle,
}

impl PlainRequest {
    /// What is said, before the status, of an answer of no success.
    pub open spec fn failure_text(self) -> Seq<char> {
        match self {
            PlainRequest::Health => "RAG service health check returned "@,
            PlainRequest::DeleteDocument => "failed to delete document: "@,
            PlainRequest::ClearKnowledgeBase => "failed to clear knowledge base: "@,
            PlainRequest::SetThrottle => "failed to set RAG throttle: "@,
        }
    }

    /// What is said, before the reason, where the service cannot be reached.
    pub open spec fn unreachable_text(self) -> Seq<char> {
        match self {
            PlainRequest::Health => "RAG service unreachable: "@,
            _ => "failed to reach RAG service: "@,
        }
    }

    /// The message where the service cannot be reached, for this reason.
    pub fn unreachable(self, reason: &str) -> (r: String)
        ensures
            r@ == self.unreachable_text() + reason@,
    {
        match self {
            PlainRequest::Health => {
                let mut e: String = "RAG service unreachable: ".to_owned();
                e.append(reason);
                e
            },
            _ => unreachable_error(reason),
        }
    }

    /// Reads the status of the answer.
    pub fn check_answer(self, status: u16) -> (r: Result<(), String>)
        requires
            is_status(status),
        ensures
            if is_success(status) {
                r is Ok
            } else {
                r matches Err(e) && e@ == self.failure_text() + status_line(status)
            },
    {
        if 200 <= status && status < 300 {
            return Ok(());
        }
        let mut e: String = match self {
            PlainRequest::Health => "RAG service health check returned ".to_owned(),
            PlainRequest::DeleteDocument => "failed to delete document: ".to_owned(),
            PlainRequest::ClearKnowledgeBase => "failed to clear knowledge base: ".to_owned(),
            PlainRequest::SetThrottle => "failed to set RAG throttle: ".to_owned(),
        };
        let line: String = status_text(status);
        e.append(line.as_str());
        Err(e)
    }
}

/// The message where the service cannot be reached, for this reason.
pub fn unreachable_error(reason: &str) -> (r: String)
    ensures
        r@ == "failed to reach RAG service: "@ + reason@,
{
    let mut e: String = "failed to reach RAG service: ".to_owned();
    e.append(reason);
    e
}

/// The message for an answer of success that cannot be read, for this reason.
pub fn unexpected_error(reason: &str) -> (r: String)
    ensures
        r@ == "RAG service returned an unexpected response: "@ + reason@,
{
    let mut e: String = "RAG service returned an unexpected response: ".to_owned();
    e.append(reason);
    e
}

/// The message for an answer of no success, with what came with it.
pub fn answer_error(status: u16, body: &str) -> (r: String)
    requires
        is_status(status),
    ensures
        r@ == "RAG service returned "@ + status_line(status) + ": "@ + body@,
{
    let mut e: String = "RAG service returned ".to_owned();
    let line: String = status_text(status);
    e.append(line.as_str());
    e.append(": ");
    e.append(body);
    e
}

/// The text of a document, given the status of the answer and what was read
/// of it: a document that does not exist has none.
pub fn document_text(status: u16, read: Result<String, String>) -> (r: Result<
    Option<String>,
    String,
>)
    ensures
        if status == 404 {
            r matches Ok(None)
        } else {
            match read {
                Ok(text) => r matches Ok(Some(t)) && t@ == text@,
                Err(e) => r matches Err(m) && m@ == e@,
            }
        },
{
    if status == 404 {
        return Ok(None);
    }
    match read {
        Ok(text) => Ok(Some(text)),
        Err(e) => Err(e),
    }
}

/// The value of a hexadecimal digit in upper case.
pub open spec fn hex_value(c: char) -> int {
    if '0' <= c <= '9' {
        c as int - '0' as int
    } else {
        c as int - 'A' as int + 10
    }
}

/// A letter, a digit and a few signs stand for themselves; any other byte is
/// written as a percent sign and its two hexadecimal digits; and a text is
/// written byte by byte.
pub proof fn every_byte_is_written(a: Seq<u8>, b: Seq<u8>, byte: u8)
    ensures
        escaped_all(a + b) == escaped_all(a) + escaped_all(b),
        ({
            let written = escaped_all(seq![byte]);
            let kept = 'A' as int <= byte <= 'Z' as int || 'a' as int <= byte <= 'z' as int || '0' as int
                <= byte <= '9' as int || byte == '-' as int || byte == '_' as int || byte == '.' as int
                || byte == '~' as int;
            if kept {
                written == seq![byte as char]
            } else {
                &&& written.len() == 3
                &&& written[0] == '%'
                &&& '0' <= written[1] <= '9' || 'A' <= written[1] <= 'F'
                &&& '0' <= written[2] <= '9' || 'A' <= written[2] <= 'F'
                &&& 16 * hex_value(written[1]) + hex_value(written[2]) == byte
            }
        }),
    decreases b.len(),
{
    if b.len() == 0 {
        assert(a + b =~= a);
        assert(escaped_all(a) =~= escaped_all(a) + escaped_all(b));
    } else {
        every_byte_is_written(a, b.drop_last(), byte);
        assert((a + b).drop_last() =~= a + b.drop_last());
        assert(escaped_all(a + b) =~= escaped_all(a) + escaped_all(b));
    }
    let one = seq![byte];
    assert(one.drop_last() =~= Seq::empty());
    assert(escaped_all(one.drop_last()) == Seq::<char>::empty());
    assert(escaped_all(one) =~= escaped(byte));
}

proof fn search_fields_differ()
    ensures
        "query"@ != "top_k"@,
        "query"@ != "agent_id"@,
        "top_k"@ != "agent_id"@,
{
    reveal_strlit("query");
    reveal_strlit("top_k");
    reveal_strlit("agent_id");
    assert("query"@.len() == 5);
    assert("top_k"@.len() == 5);
    assert("agent_id"@.len() == 8);
    assert("query"@[0] != "top_k"@[0]);
}

/// A search is asked for with its words, how many passages are wanted and whose
/// they are.
pub proof fn a_search_is_asked_with_its_words(
    query: Seq<char>,
    top_k: u32,
    agent_id: Option<Seq<char>>,
)
    ensures
        ({
            let body = search_request(query, top_k, agent_id);
            &&& body.get("query"@) == Some(JsonView::Text(query))
            &&& body.get("top_k"@) == Some(
                JsonView::Number(JsonNumberView::Unsigned(top_k as u64)),
            )
            &&& match agent_id {
                Some(id) => body.get("agent_id"@) == Some(JsonView::Text(id)),
                None => body.get("agent_id"@) == Some(JsonView::Null),
            }
        }),
{
    search_fields_differ();
    let body = search_request(query, top_k, agent_id);
    let entries = body->Object_0;
    assert(entries[0].0 == "query"@);
    assert(entries[1].0 == "top_k"@);
    assert(entries[2].0 == "agent_id"@);
    assert(entries.len() == 3);
    distinct_keys_are_all_found(entries);
    assert(body.get("query"@) == Some(entries[0].1));
    assert(body.get("top_k"@) == Some(entries[1].1));
    assert(body.get("agent_id"@) == Some(entries[2].1));
}

/// An address without an owner is left as it is; with one it goes on with the
/// owner's identifier.
pub proof fn an_address_names_its_owner(url: Seq<char>, id: Seq<char>)
    ensures
        scoped(url, None) == url,
        scoped(url, Some(id)).take(url.len() as int) == url,
        scoped(url, Some(id)).skip(url.len() as int) == "?agent_id="@ + escaped_all(
            vstd::utf8::encode_utf8(id),
        ),
{
    let written = escaped_all(vstd::utf8::encode_utf8(id));
    assert(scoped(url, Some(id)) =~= url + ("?agent_id="@ + written));
    assert(scoped(url, Some(id)).take(url.len() as int) =~= url);
    assert(scoped(url, Some(id)).skip(url.len() as int) =~= "?agent_id="@ + written);
}

} // verus!
