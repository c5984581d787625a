//! Choosing among the passages that the retrieval service finds.
use vstd::prelude::*;
use vstd::string::*;

use crate::float_order::{is_less, less};
use crate::json::opt_view;
use crate::rag::types::{item_views, ItemView, SearchResultItem};
use crate::text::{
    byte_len, byte_len_is_encoded_len, from_chars, len_bytes, same, to_chars,
};

verus! {

pub const DEFAULT_TOP_K: u32 = 5;

/// The bits of the double nearest to three tenths.
pub const DEFAULT_SIMILARITY_THRESHOLD: u64 = 0x3FD3_3333_3333_3333;

pub const DEFAULT_MAX_CONTEXT_CHARS: usize = 4_000;

/// How many characters of a passage are used, at most.
pub const MAX_CHUNK_CHARS: usize = 3_900;

/// The first `max_chars` characters of a text, or all of it.
pub open spec fn truncated(text: Seq<char>, max_chars: nat) -> Seq<char> {
    if text.len() <= max_chars {
        text
    } else {
        text.take(max_chars as int)
    }
}

/// Cuts a text to at most `max_chars` characters.
pub fn truncate_chunk_text(text: &mut String, max_chars: usize)
    ensures
        final(text)@ == truncated(old(text)@, max_chars as nat),
{
    let chars: Vec<char> = to_chars(text.as_str());
    if chars.len() <= max_chars {
        return;
    }
    *text = from_chars(&chars, 0, max_chars);
    proof {
        assert(chars@.subrange(0, max_chars as int) =~= chars@.take(max_chars as int));
    }
}

/// A text within the limit is not changed, and cutting twice is cutting once.
pub proof fn truncation_keeps_what_fits(text: Seq<char>, max_chars: nat)
    ensures
        text.len() <= max_chars ==> truncated(text, max_chars) == text,
        truncated(text, max_chars).len() <= max_chars,
        truncated(truncated(text, max_chars), max_chars) == truncated(text, max_chars),
        truncated(text, max_chars).is_prefix_of(text),
{
}

/// One of the passages has this text.
pub open spec fn has_text(items: Seq<ItemView>, text: Seq<char>) -> bool {
    exists|i: int| 0 <= i < items.len() && (#[trigger] items[i]).text == text
}

/// A passage cut to the characters that are used.
pub open spec fn cut(item: ItemView) -> ItemView {
    ItemView { text: truncated(item.text, MAX_CHUNK_CHARS as nat), ..item }
}

/// The passages that fit well enough, cut, without repetitions, in order.
pub open spec fn candidates(results: Seq<ItemView>, threshold: u64) -> Seq<ItemView>
    decreases results.len(),
{
    if results.len() == 0 {
        Seq::empty()
    } else {
        let before = candidates(results.drop_last(), threshold);
        let item = cut(results.last());
        if less(item.score, threshold) || has_text(before, item.text) {
            before
        } else {
            before.push(item)
        }
    }
}

/// The bytes of the passages' texts together.
pub open spec fn total_bytes(items: Seq<ItemView>) -> nat
    decreases items.len(),
{
    if items.len() == 0 {
        0
    } else {
        total_bytes(items.drop_last()) + byte_len(items.last().text)
    }
}

/// How many of the passages, from the first one on, are within the budget.
pub open spec fn within_budget(items: Seq<ItemView>, budget: nat) -> nat
    decreases items.len(),
{
    if items.len() == 0 {
        0
    } else {
        let before = within_budget(items.drop_last(), budget);
        if before == items.len() - 1 && total_bytes(items) <= budget {
            items.len()
        } else {
            before
        }
    }
}

/// The passages to use: the candidates within the budget, and the first one in
/// any case.
pub open spec fn chosen(results: Seq<ItemView>, threshold: u64, budget: nat) -> Seq<ItemView> {
    let all = candidates(results, threshold);
    let n = within_budget(all, budget);
    if n == 0 && all.len() > 0 {
        all.take(1)
    } else {
        all.take(n as int)
    }
}

proof fn within_budget_bound(items: Seq<ItemView>, budget: nat)
    ensures
        within_budget(items, budget) <= items.len(),
        total_bytes(items.take(within_budget(items, budget) as int)) <= budget,
    decreases items.len(),
{
    if items.len() > 0 {
        let before = items.drop_last();
        within_budget_bound(before, budget);
        let n = within_budget(before, budget);
        if n == items.len() - 1 && total_bytes(items) <= budget {
            assert(items.take(items.len() as int) =~= items);
        } else {
            assert(items.take(n as int) =~= before.take(n as int));
        }
    }
}

/// Once the budget is exceeded, nothing that follows is within it.
proof fn beyond_the_budget(items: Seq<ItemView>, budget: nat, n: int)
    requires
        0 <= n < items.len(),
        within_budget(items.take(n), budget) == n,
        total_bytes(items.take(n + 1)) > budget,
    ensures
        within_budget(items, budget) == n,
    decreases items.len(),
{
    let before = items.drop_last();
    if n + 1 == items.len() {
        assert(items.take(n + 1) =~= items);
        assert(before =~= items.take(n));
    } else {
        assert(before.take(n) =~= items.take(n));
        assert(before.take(n + 1) =~= items.take(n + 1));
        beyond_the_budget(before, budget, n);
    }
}

/// The candidates of a part are the first of the candidates of the whole.
proof fn candidates_grow(results: Seq<ItemView>, threshold: u64, n: int)
    requires
        0 <= n <= results.len(),
    ensures
        candidates(results.take(n), threshold).is_prefix_of(candidates(results, threshold)),
    decreases results.len(),
{
    if n == results.len() {
        assert(results.take(n) =~= results);
    } else {
        assert(results.drop_last().take(n) =~= results.take(n));
        candidates_grow(results.drop_last(), threshold, n);
        let part = candidates(results.take(n), threshold);
        let before = candidates(results.drop_last(), threshold);
        let all = candidates(results, threshold);
        assert(before.is_prefix_of(all));
        assert(part =~= all.take(part.len() as int));
    }
}

/// How passages are asked for and chosen. The threshold is the bits of a
/// double.
#[derive(Debug)]
pub struct RetrievalPlanner {
    pub top_k: u32,
    pub similarity_threshold: u64,
    pub max_context_chars: usize,
    pub timeout_ms: Option<u64>,
    pub agent_id: Option<String>,
}

/// Whether a passage among those given has this text.
fn already_has(items: &Vec<SearchResultItem>, text: &str) -> (r: bool)
    ensures
        r == has_text(item_views(items@), text@),
{
    let mut i: usize = 0;
    while i < items.len()
        invariant
            i <= items@.len(),
            forall|j: int| 0 <= j < i ==> (#[trigger] items@[j]).text@ != text@,
        decreases items@.len() - i,
    {
        if same(items[i].text.as_str(), text) {
            proof {
                assert(item_views(items@)[i as int].text == text@);
            }
            return true;
        }
        i += 1;
    }
    proof {
        assert forall|j: int| 0 <= j < item_views(items@).len() implies (
        #[trigger] item_views(items@)[j]).text != text@ by {
            assert(items@[j].text@ != text@);
        }
    }
    false
}

fn copy_item(item: &SearchResultItem) -> (r: SearchResultItem)
    ensures
        r@ == item@,
{
    SearchResultItem {
        chunk_id: item.chunk_id.clone(),
        score: item.score,
        text: item.text.clone(),
        metadata: crate::rag::types::SearchResultMetadata {
            filename: item.metadata.filename.clone(),
            document_type: item.metadata.document_type.clone(),
        },
    }
}

impl RetrievalPlanner {
    pub fn new() -> (r: RetrievalPlanner)
        ensures
            r.top_k == DEFAULT_TOP_K,
            r.similarity_threshold == DEFAULT_SIMILARITY_THRESHOLD,
            r.max_context_chars == DEFAULT_MAX_CONTEXT_CHARS,
            r.timeout_ms is None,
            r.agent_id is None,
    {
        RetrievalPlanner {
            top_k: DEFAULT_TOP_K,
            similarity_threshold: DEFAULT_SIMILARITY_THRESHOLD,
            max_context_chars: DEFAULT_MAX_CONTEXT_CHARS,
            timeout_ms: None,
            agent_id: None,
        }
    }

    pub fn with_config(self, top_k: u32, similarity_threshold: u64, max_context_chars: usize) -> (r:
        RetrievalPlanner)
        ensures
            r == (RetrievalPlanner { top_k, similarity_threshold, max_context_chars, ..self }),
    {
        RetrievalPlanner { top_k, similarity_threshold, max_context_chars, ..self }
    }

    /// Limits how long the search may take.
    pub fn with_timeout(self, timeout_ms: u64) -> (r: RetrievalPlanner)
        ensures
            r == (RetrievalPlanner { timeout_ms: Some(timeout_ms), ..self }),
    {
        RetrievalPlanner { timeout_ms: Some(timeout_ms), ..self }
    }

    /// Searches the documents of one agent only.
    pub fn with_agent_scope(self, agent_id: &str) -> (r: RetrievalPlanner)
        ensures
            opt_view(r.agent_id) == Some(agent_id@),
            r.top_k == self.top_k,
            r.similarity_threshold == self.similarity_threshold,
            r.max_context_chars == self.max_context_chars,
            r.timeout_ms == self.timeout_ms,
    {
        RetrievalPlanner { agent_id: Some(agent_id.to_owned()), ..self }
    }

    /// The passages to use, given what the search came to. A search that
    /// failed gives none.
    pub fn plan_for_question(&self, response: Result<Vec<SearchResultItem>, String>) -> (r: Vec<
        SearchResultItem,
    >)
        ensures
            item_views(r@) == (match response {
                Ok(results) => chosen(
                    item_views(results@),
                    self.similarity_threshold,
                    self.max_context_chars as nat,
                ),
                Err(_) => Seq::empty(),
            }),
    {
        match response {
            Ok(results) => self.filter_and_limit(results),
            Err(_) => {
                let none: Vec<SearchResultItem> = Vec::new();
                proof {
                    assert(item_views(none@) =~= Seq::empty());
                }
                none
            },
        }
    }

    /// The passages to use among those that were found.
    pub fn filter_and_limit(&self, results: Vec<SearchResultItem>) -> (r: Vec<SearchResultItem>)
        ensures
            item_views(r@) == chosen(
                item_views(results@),
                self.similarity_threshold,
                self.max_context_chars as nat,
            ),
    {
        let ghost all = item_views(results@);
        let ghost thr = self.similarity_threshold;
        let ghost budget = self.max_context_chars as nat;
        let mut kept: Vec<SearchResultItem> = Vec::new();
        let mut total: usize = 0;
        let mut i: usize = 0;
        proof {
            assert(all.take(0) =~= Seq::empty());
            assert(item_views(kept@) =~= Seq::empty());
        }
        while i < results.len()
            invariant
                i <= results@.len(),
                all == item_views(results@),
                thr == self.similarity_threshold,
                budget == self.max_context_chars,
                item_views(kept@) == candidates(all.take(i as int), thr),
                total == total_bytes(item_views(kept@)),
                total <= budget,
                within_budget(item_views(kept@), budget) == kept@.len(),
            decreases results@.len() - i,
        {
            let ghost here = all.take(i as int + 1);
            let ghost before = item_views(kept@);
            proof {
                assert(here.drop_last() =~= all.take(i as int));
                assert(here.last() == results@[i as int]@);
            }
            let mut item: SearchResultItem = copy_item(&results[i]);
            i += 1;
            if is_less(item.score, self.similarity_threshold) {
                continue;
            }
            truncate_chunk_text(&mut item.text, MAX_CHUNK_CHARS);
            if already_has(&kept, item.text.as_str()) {
                continue;
            }
            let size: usize = len_bytes(item.text.as_str());
            let ghost next = before.push(item@);
            proof {
                assert(item@ == cut(here.last()));
                assert(next == candidates(here, thr));
                assert(next.drop_last() =~= before);
                candidates_grow(all, thr, i as int);
            }
            if size > self.max_context_chars - total {
                proof {
                    let whole = candidates(all, thr);
                    assert(whole.take(before.len() as int + 1) =~= next);
                    assert(whole.take(before.len() as int) =~= before);
                    beyond_the_budget(whole, budget, before.len() as int);
                }
                if kept.len() == 0 {
                    kept.push(item);
                    proof {
                        assert(item_views(kept@) =~= candidates(all, thr).take(1));
                    }
                }
                return kept;
            }
            total = total + size;
            kept.push(item);
            proof {
                assert(item_views(kept@) =~= next);
            }
        }
        proof {
            assert(all.take(i as int) =~= all);
            let whole = candidates(all, thr);
            assert(whole.take(whole.len() as int) =~= whole);
        }
        kept
    }
}

impl Default for RetrievalPlanner {
    fn default() -> (r: RetrievalPlanner)
        ensures
            r.top_k == DEFAULT_TOP_K,
            r.similarity_threshold == DEFAULT_SIMILARITY_THRESHOLD,
            r.max_context_chars == DEFAULT_MAX_CONTEXT_CHARS,
            r.timeout_ms is None,
            r.agent_id is None,
    {
        RetrievalPlanner::new()
    }
}

proof fn candidates_are_fit(results: Seq<ItemView>, threshold: u64)
    ensures
        forall|i: int|
            0 <= i < candidates(results, threshold).len() ==> {
                let item = #[trigger] candidates(results, threshold)[i];
                !less(item.score, threshold) && item.text.len() <= MAX_CHUNK_CHARS
            },
        forall|i: int, j: int|
            0 <= i < j < candidates(results, threshold).len() ==> (#[trigger] candidates(
                results,
                threshold,
            )[i]).text != (#[trigger] candidates(results, threshold)[j]).text,
    decreases results.len(),
{
    if results.len() > 0 {
        candidates_are_fit(results.drop_last(), threshold);
        let before = candidates(results.drop_last(), threshold);
        let all = candidates(results, threshold);
        let item = cut(results.last());
        assert(all == before || all == before.push(item));
        assert forall|i: int| 0 <= i < all.len() implies {
            let it = #[trigger] all[i];
            !less(it.score, threshold) && it.text.len() <= MAX_CHUNK_CHARS
        } by {
            if i < before.len() {
                assert(all[i] == before[i]);
            }
        }
        assert forall|i: int, j: int| 0 <= i < j < all.len() implies (#[trigger] all[i]).text != (
        #[trigger] all[j]).text by {
            assert(all[i] == before[i]);
            if j < before.len() {
                assert(all[j] == before[j]);
            } else {
                assert(!has_text(before, item.text));
            }
        }
    }
}

/// Every passage that is used fits well enough and is no longer than
/// `MAX_CHUNK_CHARS`; no two of them have the same text; and their texts are
/// within the budget, unless there is but one.
pub proof fn chosen_passages_are_fit(results: Seq<ItemView>, threshold: u64, budget: nat)
    ensures
        ({
            let used = chosen(results, threshold, budget);
            &&& forall|i: int|
                0 <= i < used.len() ==> !less((#[trigger] used[i]).score, threshold)
                    && used[i].text.len() <= MAX_CHUNK_CHARS
            &&& forall|i: int, j: int|
                0 <= i < j < used.len() ==> (#[trigger] used[i]).text != (#[trigger] used[j]).text
            &&& total_bytes(used) <= budget || used.len() == 1
        }),
{
    candidates_are_fit(results, threshold);
    within_budget_bound(candidates(results, threshold), budget);
    let used = chosen(results, threshold, budget);
    let all = candidates(results, threshold);
    assert forall|i: int, j: int| 0 <= i < j < used.len() implies (#[trigger] used[i]).text != (
    #[trigger] used[j]).text by {
        assert(used[i] == all[i] && used[j] == all[j]);
    }
}

/// Where some passage fits well enough, at least one is used, whatever the
/// budget; where none does, none is used.
pub proof fn something_is_used_if_anything_fits(
    results: Seq<ItemView>,
    threshold: u64,
    budget: nat,
)
    ensures
        chosen(results, threshold, budget).len() > 0 <==> exists|i: int|
            0 <= i < results.len() && !less((#[trigger] results[i]).score, threshold),
{
    within_budget_bound(candidates(results, threshold), budget);
    candidates_exist(results, threshold);
}

proof fn candidates_exist(results: Seq<ItemView>, threshold: u64)
    ensures
        candidates(results, threshold).len() > 0 <==> exists|i: int|
            0 <= i < results.len() && !less((#[trigger] results[i]).score, threshold),
    decreases results.len(),
{
    if results.len() > 0 {
        let before = results.drop_last();
        candidates_exist(before, threshold);
        if exists|i: int| 0 <= i < before.len() && !less((#[trigger] before[i]).score, threshold) {
            let i = choose|i: int|
                0 <= i < before.len() && !less((#[trigger] before[i]).score, threshold);
            assert(!less(results[i].score, threshold));
        }
        if candidates(results, threshold).len() > 0 && less(results.last().score, threshold) {
            let i = choose|i: int|
                0 <= i < before.len() && !less((#[trigger] before[i]).score, threshold);
            assert(!less(results[i].score, threshold));
        }
        if !less(results.last().score, threshold) {
            assert(!less(results[results.len() - 1].score, threshold));
        }
        if exists|i: int| 0 <= i < results.len() && !less((#[trigger] results[i]).score, threshold) {
            let i = choose|i: int|
                0 <= i < results.len() && !less((#[trigger] results[i]).score, threshold);
            if i < before.len() {
                assert(!less(before[i].score, threshold));
            }
        }
    }
}

/// A passage that is used is a passage that was found: the same, with its text
/// cut to the first `MAX_CHUNK_CHARS` characters where it is longer.
pub open spec fn is_used_of(used: ItemView, found: ItemView) -> bool {
    &&& used.chunk_id == found.chunk_id
    &&& used.score == found.score
    &&& used.filename == found.filename
    &&& used.document_type == found.document_type
    &&& found.text.len() <= 3_900 ==> used.text == found.text
    &&& found.text.len() > 3_900 ==> used.text == found.text.subrange(0, 3_900)
}

/// One of the passages that are used has the text of this passage that was
/// found, as far as a text is used.
pub open spec fn text_is_used(used: Seq<ItemView>, found: ItemView) -> bool {
    exists|j: int|
        0 <= j < used.len() && (#[trigger] used[j]).text == (if found.text.len() <= 3_900 {
            found.text
        } else {
            found.text.subrange(0, 3_900)
        })
}

/// The bytes, in UTF-8, of the texts of some passages.
pub open spec fn encoded_bytes(items: Seq<ItemView>) -> nat
    decreases items.len(),
{
    if items.len() == 0 {
        0
    } else {
        vstd::utf8::encode_utf8(items[0].text).len() + encoded_bytes(items.drop_first())
    }
}

/// The bytes, in UTF-8, of the text of a passage, as far as it is used.
pub open spec fn used_bytes(found: ItemView) -> nat {
    vstd::utf8::encode_utf8(
        if found.text.len() <= 3_900 {
            found.text
        } else {
            found.text.subrange(0, 3_900)
        },
    ).len()
}

/// Where the candidates stand among the passages that were found.
spec fn origins(results: Seq<ItemView>, threshold: u64) -> Seq<int>
    decreases results.len(),
{
    if results.len() == 0 {
        Seq::empty()
    } else {
        let before = candidates(results.drop_last(), threshold);
        let item = cut(results.last());
        if less(item.score, threshold) || has_text(before, item.text) {
            origins(results.drop_last(), threshold)
        } else {
            origins(results.drop_last(), threshold).push(results.len() - 1)
        }
    }
}

proof fn candidates_come_from(results: Seq<ItemView>, threshold: u64)
    ensures
        origins(results, threshold).len() == candidates(results, threshold).len(),
        forall|j: int|
            0 <= j < origins(results, threshold).len() ==> {
                let k = #[trigger] origins(results, threshold)[j];
                0 <= k < results.len() && candidates(results, threshold)[j] == cut(results[k])
                    && !less(results[k].score, threshold)
            },
        forall|i: int, j: int|
            0 <= i < j < origins(results, threshold).len() ==> #[trigger] origins(
                results,
                threshold,
            )[i] < #[trigger] origins(results, threshold)[j],
        forall|i: int|
            0 <= i < results.len() && !less((#[trigger] results[i]).score, threshold) ==> has_text(
                candidates(results, threshold),
                cut(results[i]).text,
            ),
    decreases results.len(),
{
    if results.len() > 0 {
        let before = results.drop_last();
        candidates_come_from(before, threshold);
        let old_all = candidates(before, threshold);
        let all = candidates(results, threshold);
        let old_at = origins(before, threshold);
        let at = origins(results, threshold);
        assert forall|j: int| 0 <= j < at.len() implies {
            let k = #[trigger] at[j];
            0 <= k < results.len() && all[j] == cut(results[k]) && !less(
                results[k].score,
                threshold,
            )
        } by {
            if j < old_at.len() {
                assert(at[j] == old_at[j]);
                assert(results[at[j]] == before[at[j]]);
            }
        }
        assert forall|i: int, j: int| 0 <= i < j < at.len() implies #[trigger] at[i]
            < #[trigger] at[j] by {
            assert(at[i] == old_at[i]);
            if j < old_at.len() {
                assert(at[j] == old_at[j]);
            }
        }
        assert forall|i: int|
            0 <= i < results.len() && !less(
                (#[trigger] results[i]).score,
                threshold,
            ) implies has_text(all, cut(results[i]).text) by {
            if i < before.len() {
                assert(before[i] == results[i]);
                let p = choose|p: int|
                    0 <= p < old_all.len() && (#[trigger] old_all[p]).text == cut(results[i]).text;
                assert(all[p] == old_all[p]);
            } else if !has_text(old_all, cut(results[i]).text) {
                assert(all[all.len() - 1] == cut(results[i]));
            } else {
                let p = choose|p: int|
                    0 <= p < old_all.len() && (#[trigger] old_all[p]).text == cut(results[i]).text;
                assert(all[p] == old_all[p]);
            }
        }
    }
}

proof fn origins_grow(results: Seq<ItemView>, threshold: u64, n: int)
    requires
        0 <= n <= results.len(),
    ensures
        origins(results.take(n), threshold).is_prefix_of(origins(results, threshold)),
    decreases results.len(),
{
    if n == results.len() {
        assert(results.take(n) =~= results);
    } else {
        assert(results.drop_last().take(n) =~= results.take(n));
        origins_grow(results.drop_last(), threshold, n);
        let part = origins(results.take(n), threshold);
        let all = origins(results, threshold);
        assert(origins(results.drop_last(), threshold).is_prefix_of(all));
        assert(part =~= all.take(part.len() as int));
    }
}

proof fn the_next_is_beyond(items: Seq<ItemView>, budget: nat)
    requires
        within_budget(items, budget) < items.len(),
    ensures
        total_bytes(items.take(within_budget(items, budget) as int + 1)) > budget,
    decreases items.len(),
{
    let before = items.drop_last();
    let n = within_budget(items, budget) as int;
    within_budget_bound(before, budget);
    if within_budget(before, budget) == before.len() {
        assert(n == before.len());
        assert(items.take(n + 1) =~= items);
    } else {
        the_next_is_beyond(before, budget);
        assert(before.take(n + 1) =~= items.take(n + 1));
    }
}

proof fn totals_are_encoded_bytes(items: Seq<ItemView>)
    ensures
        encoded_bytes(items) == total_bytes(items),
    decreases items.len(),
{
    if items.len() > 0 {
        totals_are_encoded_bytes(items.drop_last());
        byte_len_is_encoded_len(items.last().text);
        encoded_bytes_push(items.drop_last(), items.last());
        assert(items.drop_last().push(items.last()) =~= items);
    }
}

proof fn encoded_bytes_push(items: Seq<ItemView>, item: ItemView)
    ensures
        encoded_bytes(items.push(item)) == encoded_bytes(items) + vstd::utf8::encode_utf8(
            item.text,
        ).len(),
    decreases items.len(),
{
    let all = items.push(item);
    if items.len() == 0 {
        assert(all.drop_first() =~= Seq::empty());
        assert(encoded_bytes(all.drop_first()) == 0);
    } else {
        encoded_bytes_push(items.drop_first(), item);
        assert(all.drop_first() =~= items.drop_first().push(item));
    }
}

/// The passages that are used are passages that were found, each of them well
/// enough, in the order in which they were found: `places` says which.
pub open spec fn taken_in_order(
    results: Seq<ItemView>,
    used: Seq<ItemView>,
    threshold: u64,
    places: Seq<int>,
) -> bool {
    &&& places.len() == used.len()
    &&& forall|j: int|
        0 <= j < used.len() ==> 0 <= #[trigger] places[j] < results.len() && is_used_of(
            used[j],
            results[places[j]],
        ) && !less(results[places[j]].score, threshold)
    &&& forall|i: int, j: int|
        0 <= i < j < places.len() ==> #[trigger] places[i] < #[trigger] places[j]
}

/// The passages that are used are among those that were found, in that order,
/// and nothing but the length of a text is changed.
pub proof fn used_passages_were_found(results: Seq<ItemView>, threshold: u64, budget: nat)
    ensures
        exists|places: Seq<int>|
            taken_in_order(results, chosen(results, threshold, budget), threshold, places),
{
    let used = chosen(results, threshold, budget);
    let all = candidates(results, threshold);
    candidates_come_from(results, threshold);
    within_budget_bound(all, budget);
    let places = origins(results, threshold).take(used.len() as int);
    assert forall|j: int| 0 <= j < used.len() implies 0 <= #[trigger] places[j] < results.len()
        && is_used_of(used[j], results[places[j]]) && !less(
        results[places[j]].score,
        threshold,
    ) by {
        let k = origins(results, threshold)[j];
        assert(used[j] == all[j]);
        assert(results[k].text.take(3_900) =~= results[k].text.subrange(0, 3_900));
    }
    assert forall|i: int, j: int| 0 <= i < j < places.len() implies #[trigger] places[i]
        < #[trigger] places[j] by {
        let at = origins(results, threshold);
        assert(places[i] == at[i] && places[j] == at[j]);
    }
    assert(taken_in_order(results, used, threshold, places));
}

/// No passage is left out that fits: the text of every passage that was found
/// well enough is used, unless it, or one found well enough before it that is
/// not used either, is more than the budget has room for beside those that are
/// used.
pub proof fn no_fitting_passage_is_left_out(
    results: Seq<ItemView>,
    threshold: u64,
    budget: nat,
    i: int,
)
    requires
        0 <= i < results.len(),
        !less(results[i].score, threshold),
    ensures
        ({
            let used = chosen(results, threshold, budget);
            text_is_used(used, results[i]) || exists|k: int|
                0 <= k <= i && !less((#[trigger] results[k]).score, threshold) && !text_is_used(
                    used,
                    results[k],
                ) && encoded_bytes(used) + used_bytes(results[k]) > budget
        }),
{
    let used = chosen(results, threshold, budget);
    let all = candidates(results, threshold);
    candidates_come_from(results, threshold);
    candidates_are_fit(results, threshold);
    within_budget_bound(all, budget);
    let n = within_budget(all, budget) as int;
    totals_are_encoded_bytes(used);
    assert(results[i].text.take(3_900) =~= results[i].text.subrange(0, 3_900));
    if !text_is_used(used, results[i]) {
        if n == 0 && all.len() > 0 {
            the_next_is_beyond(all, budget);
            assert(encoded_bytes(used) + used_bytes(results[i]) > budget);
        } else {
            let part = results.take(i + 1);
            candidates_come_from(part, threshold);
            candidates_grow(results, threshold, i + 1);
            origins_grow(results, threshold, i + 1);
            let some = candidates(part, threshold);
            assert(part[i] == results[i]);
            let p = choose|p: int|
                0 <= p < some.len() && (#[trigger] some[p]).text == cut(results[i]).text;
            assert(some[p] == all[p]);
            if p < n {
                assert(used[p] == all[p]);
            }
            let k = origins(results, threshold)[n];
            assert(origins(part, threshold)[n] == k);
            assert(0 <= k <= i);
            assert(all[n] == cut(results[k]));
            assert(results[k].text.take(3_900) =~= results[k].text.subrange(0, 3_900));
            if text_is_used(used, results[k]) {
                let j = choose|j: int|
                    0 <= j < used.len() && (#[trigger] used[j]).text == all[n].text;
                assert(used[j] == all[j]);
            }
            the_next_is_beyond(all, budget);
            assert(all.take(n + 1).drop_last() =~= all.take(n));
            assert(all.take(n + 1).last() == all[n]);
            byte_len_is_encoded_len(all[n].text);
            assert(encoded_bytes(used) + used_bytes(results[k]) > budget);
        }
    }
}

/// The bytes of the texts of all passages that were found well enough, as far as
/// they are used.
pub open spec fn fitting_bytes(results: Seq<ItemView>, threshold: u64) -> nat
    decreases results.len(),
{
    if results.len() == 0 {
        0
    } else {
        fitting_bytes(results.drop_last(), threshold) + (if less(
            results.last().score,
            threshold,
        ) {
            0nat
        } else {
            used_bytes(results.last())
        })
    }
}

proof fn candidates_are_no_more(results: Seq<ItemView>, threshold: u64)
    ensures
        total_bytes(candidates(results, threshold)) <= fitting_bytes(results, threshold),
    decreases results.len(),
{
    if results.len() > 0 {
        candidates_are_no_more(results.drop_last(), threshold);
        let before = candidates(results.drop_last(), threshold);
        let last = results.last();
        assert(before.push(cut(last)).drop_last() =~= before);
        assert(last.text.take(3_900) =~= last.text.subrange(0, 3_900));
        byte_len_is_encoded_len(cut(last).text);
    }
}

proof fn all_within(items: Seq<ItemView>, budget: nat)
    requires
        total_bytes(items) <= budget,
    ensures
        within_budget(items, budget) == items.len(),
    decreases items.len(),
{
    if items.len() > 0 {
        all_within(items.drop_last(), budget);
    }
}

/// Where the passages that were found well enough are within the budget all
/// together, the text of each of them is used.
pub proof fn all_are_used_within_the_budget(
    results: Seq<ItemView>,
    threshold: u64,
    budget: nat,
    i: int,
)
    requires
        0 <= i < results.len(),
        !less(results[i].score, threshold),
        fitting_bytes(results, threshold) <= budget,
    ensures
        text_is_used(chosen(results, threshold, budget), results[i]),
{
    let all = candidates(results, threshold);
    candidates_are_no_more(results, threshold);
    all_within(all, budget);
    candidates_come_from(results, threshold);
    assert(all.take(all.len() as int) =~= all);
    assert(results[i].text.take(3_900) =~= results[i].text.subrange(0, 3_900));
}

} // verus!
