//! Cuts a stream of answer text into sentence-sized chunks to speak.
//!
//! A chunk is released as soon as a sentence is complete. Until the first
//! chunk is released, the end of a clause that is long enough also counts, so
//! that the first sound comes early.
use vstd::prelude::*;
use vstd::string::*;

use crate::json::opt_view;
use crate::text::{
    byte_len, char_width, concat, from_chars, is_whitespace, to_chars, trim, trim_keeps_visible,
    trimmed_chars, trimmed_to_nothing, views, visible, visible_of_both,
};

verus! {

/// How many bytes must stand before a comma or semicolon that ends a chunk.
pub const MIN_SOFT_CHUNK_CHARS: usize = 20;

/// A sentence ends with one of these.
pub open spec fn ends_sentence(c: char) -> bool {
    c == '.' || c == '!' || c == '?'
}

/// These still belong to the sentence that has just ended.
pub open spec fn closes_sentence(c: char) -> bool {
    ends_sentence(c) || c == '"' || c == '\'' || c == ')'
}

/// The ASCII whitespace characters: space, tab, line feed, form feed and
/// carriage return.
pub open spec fn ascii_whitespace(c: char) -> bool {
    c == ' ' || c == '\t' || c == '\n' || c == '\x0C' || c == '\r'
}

/// The end of the run of closing characters that starts at `i`.
pub open spec fn run_end(s: Seq<char>, i: int) -> int
    decreases s.len() - i,
{
    if 0 <= i < s.len() && closes_sentence(s[i]) {
        run_end(s, i + 1)
    } else {
        i
    }
}

/// Where a sentence ends by virtue of the character at `i`: after it and the
/// closing characters that follow, if whitespace or nothing comes next; or
/// after a line feed that is not the first character.
pub open spec fn sentence_end_at(s: Seq<char>, i: int) -> Option<int> {
    let end = run_end(s, i + 1);
    if ends_sentence(s[i]) && (end == s.len() || ascii_whitespace(s[end])) {
        Some(end)
    } else if s[i] == '\n' && i > 0 {
        Some(i + 1)
    } else {
        None
    }
}

/// The first end of a sentence by virtue of a character at or after `i`.
pub open spec fn sentence_boundary(s: Seq<char>, i: int) -> Option<int>
    decreases s.len() - i,
{
    if i < 0 || i >= s.len() {
        None
    } else if sentence_end_at(s, i) is Some {
        sentence_end_at(s, i)
    } else {
        sentence_boundary(s, i + 1)
    }
}

/// The character at `i` ends a clause: a comma or semicolon with enough before
/// it and whitespace after it.
pub open spec fn clause_end_at(s: Seq<char>, i: int) -> bool {
    &&& byte_len(s.take(i)) >= MIN_SOFT_CHUNK_CHARS
    &&& (s[i] == ',' || s[i] == ';')
    &&& i + 1 < s.len()
    &&& ascii_whitespace(s[i + 1])
}

/// The first end of a clause at or after `i`, with the whitespace that
/// follows it.
pub open spec fn clause_boundary(s: Seq<char>, i: int) -> Option<int>
    decreases s.len() - i,
{
    if i < 0 || i >= s.len() {
        None
    } else if clause_end_at(s, i) {
        Some(i + 2)
    } else {
        clause_boundary(s, i + 1)
    }
}

/// Where the next chunk ends: at the end of a sentence or, before the first
/// release, at the end of a clause, whichever comes first.
pub open spec fn boundary(s: Seq<char>, released_any: bool) -> Option<int> {
    let sentence = sentence_boundary(s, 0);
    if released_any {
        sentence
    } else {
        match (clause_boundary(s, 0), sentence) {
            (Some(c), Some(e)) => if c <= e {
                Some(c)
            } else {
                Some(e)
            },
            (Some(c), None) => Some(c),
            (None, e) => e,
        }
    }
}

proof fn run_end_bounds(s: Seq<char>, i: int)
    requires
        0 <= i <= s.len(),
    ensures
        i <= run_end(s, i) <= s.len(),
    decreases s.len() - i,
{
    if i < s.len() && closes_sentence(s[i]) {
        run_end_bounds(s, i + 1);
    }
}

proof fn sentence_boundary_bounds(s: Seq<char>, i: int)
    ensures
        sentence_boundary(s, i) matches Some(b) ==> 0 < b <= s.len(),
    decreases s.len() - i,
{
    if 0 <= i < s.len() {
        run_end_bounds(s, i + 1);
        sentence_boundary_bounds(s, i + 1);
    }
}

proof fn clause_boundary_bounds(s: Seq<char>, i: int)
    ensures
        clause_boundary(s, i) matches Some(b) ==> 0 < b <= s.len(),
    decreases s.len() - i,
{
    if 0 <= i < s.len() {
        clause_boundary_bounds(s, i + 1);
    }
}

/// A chunk ends after at least one character and within the text.
pub proof fn boundary_bounds(s: Seq<char>, released_any: bool)
    ensures
        boundary(s, released_any) matches Some(b) ==> 0 < b <= s.len(),
{
    sentence_boundary_bounds(s, 0);
    clause_boundary_bounds(s, 0);
}

/// The state of a chunker: the text not yet released, and whether any chunk
/// was released.
pub struct ChunkerView {
    pub buffer: Seq<char>,
    pub released_any: bool,
}

/// What a chunker releases: the chunks that are complete, trimmed and without
/// empty ones, and the state after them.
pub open spec fn released(state: ChunkerView) -> (Seq<Seq<char>>, ChunkerView)
    decreases state.buffer.len(),
{
    proof {
        boundary_bounds(state.buffer, state.released_any);
    }
    match boundary(state.buffer, state.released_any) {
        None => (Seq::empty(), state),
        Some(b) => {
            let chunk = trim(state.buffer.take(b));
            let rest = state.buffer.skip(b);
            if chunk.len() == 0 {
                released(ChunkerView { buffer: rest, released_any: state.released_any })
            } else {
                let (chunks, after) = released(ChunkerView { buffer: rest, released_any: true });
                (seq![chunk] + chunks, after)
            }
        },
    }
}

impl ChunkerView {
    /// The state with more text.
    pub open spec fn with(self, delta: Seq<char>) -> ChunkerView {
        ChunkerView { buffer: self.buffer + delta, released_any: self.released_any }
    }
}

/// Cuts a stream of text into chunks to speak.
#[derive(Debug)]
pub struct SentenceChunker {
    buffer: String,
    released_any: bool,
}

fn is_sentence_end(c: char) -> (r: bool)
    ensures
        r == ends_sentence(c),
{
    c == '.' || c == '!' || c == '?'
}

fn is_sentence_closer(c: char) -> (r: bool)
    ensures
        r == closes_sentence(c),
{
    is_sentence_end(c) || c == '"' || c == '\'' || c == ')'
}

fn is_ascii_whitespace(c: char) -> (r: bool)
    ensures
        r == ascii_whitespace(c),
{
    c == ' ' || c == '\t' || c == '\n' || c == '\x0C' || c == '\r'
}

fn find_run_end(s: &Vec<char>, from: usize) -> (r: usize)
    requires
        from <= s@.len(),
    ensures
        r == run_end(s@, from as int),
        from <= r <= s@.len(),
{
    let mut end: usize = from;
    while end < s.len() && is_sentence_closer(s[end])
        invariant
            from <= end <= s@.len(),
            run_end(s@, from as int) == run_end(s@, end as int),
        decreases s@.len() - end,
    {
        end += 1;
    }
    end
}

/// The end of the first complete sentence.
fn find_sentence_boundary(s: &Vec<char>) -> (r: Option<usize>)
    ensures
        match r {
            Some(b) => sentence_boundary(s@, 0) == Some(b as int),
            None => sentence_boundary(s@, 0) is None,
        },
{
    let mut i: usize = 0;
    while i < s.len()
        invariant
            i <= s@.len(),
            sentence_boundary(s@, 0) == sentence_boundary(s@, i as int),
        decreases s@.len() - i,
    {
        if is_sentence_end(s[i]) {
            let end: usize = find_run_end(s, i + 1);
            if end == s.len() || is_ascii_whitespace(s[end]) {
                return Some(end);
            }
        }
        if s[i] == '\n' && i > 0 {
            return Some(i + 1);
        }
        i += 1;
    }
    None
}

/// The end of the first clause that is long enough.
fn find_soft_boundary(s: &Vec<char>) -> (r: Option<usize>)
    ensures
        match r {
            Some(b) => clause_boundary(s@, 0) == Some(b as int),
            None => clause_boundary(s@, 0) is None,
        },
{
    let mut i: usize = 0;
    let mut enough: bool = false;
    let mut before: usize = 0;
    proof {
        assert(s@.take(0) =~= Seq::empty());
    }
    while i < s.len()
        invariant
            i <= s@.len(),
            enough == (byte_len(s@.take(i as int)) >= MIN_SOFT_CHUNK_CHARS),
            !enough ==> before == byte_len(s@.take(i as int)),
            clause_boundary(s@, 0) == clause_boundary(s@, i as int),
        decreases s@.len() - i,
    {
        if enough && (s[i] == ',' || s[i] == ';') && i + 1 < s.len() && is_ascii_whitespace(
            s[i + 1],
        ) {
            return Some(i + 2);
        }
        proof {
            assert(s@.take(i as int + 1).drop_last() =~= s@.take(i as int));
        }
        if !enough {
            before = before + char_width(s[i]);
            enough = before >= MIN_SOFT_CHUNK_CHARS;
        }
        i += 1;
    }
    None
}

/// The end of the next chunk.
fn find_boundary(s: &Vec<char>, released_any: bool) -> (r: Option<usize>)
    ensures
        match r {
            Some(b) => boundary(s@, released_any) == Some(b as int),
            None => boundary(s@, released_any) is None,
        },
{
    let sentence: Option<usize> = find_sentence_boundary(s);
    if released_any {
        return sentence;
    }
    match (find_soft_boundary(s), sentence) {
        (Some(c), Some(e)) => if c <= e {
            Some(c)
        } else {
            Some(e)
        },
        (Some(c), None) => Some(c),
        (None, e) => e,
    }
}

impl SentenceChunker {
    pub closed spec fn view(&self) -> ChunkerView {
        ChunkerView { buffer: self.buffer@, released_any: self.released_any }
    }

    pub fn new() -> (r: SentenceChunker)
        ensures
            r@ == (ChunkerView { buffer: Seq::empty(), released_any: false }),
    {
        SentenceChunker { buffer: String::new(), released_any: false }
    }

    /// Takes more text and returns the chunks that are now complete.
    pub fn push(&mut self, delta: &str) -> (r: Vec<String>)
        ensures
            (views(r@), final(self)@) == released(old(self)@.with(delta@)),
    {
        self.buffer.append(delta);
        let ghost start = self@;
        let mut out: Vec<String> = Vec::new();
        proof {
            assert(views(out@) =~= Seq::empty());
            assert(Seq::<Seq<char>>::empty() + released(self@).0 =~= released(self@).0);
        }
        loop
            invariant
                (views(out@) + released(self@).0, released(self@).1) == released(start),
            ensures
                (views(out@), self@) == released(start),
            decreases self@.buffer.len(),
        {
            let chars: Vec<char> = to_chars(self.buffer.as_str());
            let ghost before = self@;
            let ghost out_before = views(out@);
            proof {
                boundary_bounds(before.buffer, before.released_any);
            }
            match find_boundary(&chars, self.released_any) {
                None => {
                    proof {
                        assert(views(out@) + Seq::<Seq<char>>::empty() =~= views(out@));
                    }
                    break;
                },
                Some(b) => {
                    let piece: String = from_chars(&chars, 0, b);
                    let piece_chars: Vec<char> = to_chars(piece.as_str());
                    let chunk: String = trimmed_chars(&piece_chars);
                    self.buffer = from_chars(&chars, b, chars.len());
                    proof {
                        assert(chars@.subrange(0, b as int) =~= before.buffer.take(b as int));
                        assert(chars@.subrange(b as int, chars@.len() as int)
                            =~= before.buffer.skip(b as int));
                    }
                    if !chunk.as_str().is_empty() {
                        out.push(chunk);
                        self.released_any = true;
                        proof {
                            assert(views(out@) =~= out_before.push(chunk@));
                            assert(out_before + released(before).0 =~= views(out@) + released(
                                self@,
                            ).0);
                        }
                    }
                },
            }
        }
        out
    }

    /// The text that no boundary has released, trimmed; nothing where only
    /// whitespace is left. Empties the chunker.
    pub fn finish(&mut self) -> (r: Option<String>)
        ensures
            opt_view(r) == (if trim(old(self)@.buffer).len() == 0 {
                None
            } else {
                Some(trim(old(self)@.buffer))
            }),
            final(self)@ == (ChunkerView {
                buffer: Seq::empty(),
                released_any: old(self)@.released_any,
            }),
    {
        let chars: Vec<char> = to_chars(self.buffer.as_str());
        let rest: String = trimmed_chars(&chars);
        self.buffer = String::new();
        if rest.as_str().is_empty() {
            None
        } else {
            Some(rest)
        }
    }
}

impl Default for SentenceChunker {
    fn default() -> (r: SentenceChunker)
        ensures
            r@ == (ChunkerView { buffer: Seq::empty(), released_any: false }),
    {
        SentenceChunker::new()
    }
}

/// No visible character is lost or moved: those of the buffered text are those
/// of the released chunks, in order, followed by those still buffered.
pub proof fn chunks_keep_the_text(state: ChunkerView)
    ensures
        visible(state.buffer) == visible(concat(released(state).0)) + visible(
            released(state).1.buffer,
        ),
    decreases state.buffer.len(),
{
    boundary_bounds(state.buffer, state.released_any);
    match boundary(state.buffer, state.released_any) {
        None => {
            assert(visible(Seq::empty()) =~= Seq::empty()) by {
                reveal(Seq::filter);
            }
            assert(Seq::<char>::empty() + visible(state.buffer) =~= visible(state.buffer));
        },
        Some(b) => {
            let piece = state.buffer.take(b);
            let chunk = trim(piece);
            let rest = state.buffer.skip(b);
            assert(state.buffer =~= piece + rest);
            visible_of_both(piece, rest);
            trim_keeps_visible(piece);
            if chunk.len() == 0 {
                assert(visible(chunk) =~= Seq::empty()) by {
                    reveal(Seq::filter);
                }
                chunks_keep_the_text(
                    ChunkerView { buffer: rest, released_any: state.released_any },
                );
                assert(Seq::<char>::empty() + visible(rest) =~= visible(rest));
            } else {
                let next = ChunkerView { buffer: rest, released_any: true };
                chunks_keep_the_text(next);
                let (chunks, after) = released(next);
                assert((seq![chunk] + chunks).drop_first() =~= chunks);
                visible_of_both(chunk, concat(chunks));
                assert(visible(chunk) + (visible(concat(chunks)) + visible(after.buffer)) =~= (
                visible(chunk) + visible(concat(chunks))) + visible(after.buffer));
            }
        },
    }
}

/// Every released chunk has text, and a state that has released a chunk stays
/// one that has.
pub proof fn chunks_are_never_empty(state: ChunkerView)
    ensures
        forall|i: int| 0 <= i < released(state).0.len() ==> (#[trigger] released(state).0[i]).len()
            > 0,
        state.released_any ==> released(state).1.released_any,
        released(state).0.len() > 0 ==> released(state).1.released_any,
    decreases state.buffer.len(),
{
    boundary_bounds(state.buffer, state.released_any);
    match boundary(state.buffer, state.released_any) {
        None => {},
        Some(b) => {
            let rest = state.buffer.skip(b);
            if trim(state.buffer.take(b)).len() == 0 {
                chunks_are_never_empty(
                    ChunkerView { buffer: rest, released_any: state.released_any },
                );
            } else {
                let next = ChunkerView { buffer: rest, released_any: true };
                chunks_are_never_empty(next);
                assert forall|i: int| 0 <= i < released(state).0.len() implies (
                #[trigger] released(state).0[i]).len() > 0 by {
                    if i > 0 {
                        assert(released(state).0[i] == released(next).0[i - 1]);
                    }
                }
            }
        },
    }
}

/// What a chunker releases for a whole sequence of deltas.
pub open spec fn released_over(state: ChunkerView, deltas: Seq<Seq<char>>) -> (
    Seq<Seq<char>>,
    ChunkerView,
)
    decreases deltas.len(),
{
    if deltas.len() == 0 {
        (Seq::empty(), state)
    } else {
        let (first, after) = released(state.with(deltas[0]));
        let (rest, end) = released_over(after, deltas.drop_first());
        (first + rest, end)
    }
}

/// However an answer is cut into deltas, the chunks and what `finish` returns
/// hold its visible characters, all of them and in order.
pub proof fn the_whole_answer_is_spoken(state: ChunkerView, deltas: Seq<Seq<char>>)
    ensures
        ({
            let (chunks, end) = released_over(state, deltas);
            visible(state.buffer + concat(deltas)) == visible(concat(chunks)) + visible(
                trim(end.buffer),
            )
        }),
    decreases deltas.len(),
{
    let (chunks, end) = released_over(state, deltas);
    if deltas.len() == 0 {
        assert(state.buffer + concat(deltas) =~= state.buffer);
        trim_keeps_visible(state.buffer);
        assert(visible(Seq::empty()) =~= Seq::empty()) by {
            reveal(Seq::filter);
        }
        assert(Seq::<char>::empty() + visible(state.buffer) =~= visible(state.buffer));
    } else {
        let (first, after) = released(state.with(deltas[0]));
        let (rest, _) = released_over(after, deltas.drop_first());
        let tail = concat(deltas.drop_first());
        chunks_keep_the_text(state.with(deltas[0]));
        the_whole_answer_is_spoken(after, deltas.drop_first());
        assert(state.buffer + concat(deltas) =~= (state.buffer + deltas[0]) + tail);
        visible_of_both(state.buffer + deltas[0], tail);
        visible_of_both(after.buffer, tail);
        concat_of_both(first, rest);
        visible_of_both(concat(first), concat(rest));
        assert((visible(concat(first)) + visible(after.buffer)) + visible(tail) =~= visible(
            concat(first),
        ) + (visible(after.buffer) + visible(tail)));
        assert(visible(concat(first)) + (visible(concat(rest)) + visible(trim(end.buffer))) =~= (
        visible(concat(first)) + visible(concat(rest))) + visible(trim(end.buffer)));
    }
}

proof fn concat_of_both(a: Seq<Seq<char>>, b: Seq<Seq<char>>)
    ensures
        concat(a + b) == concat(a) + concat(b),
    decreases a.len(),
{
    if a.len() == 0 {
        assert(a + b =~= b);
        assert(Seq::<char>::empty() + concat(b) =~= concat(b));
    } else {
        concat_of_both(a.drop_first(), b);
        assert((a + b).drop_first() =~= a.drop_first() + b);
        assert(a[0] + (concat(a.drop_first()) + concat(b)) =~= (a[0] + concat(a.drop_first()))
            + concat(b));
    }
}

proof fn no_sentence_ends_before(s: Seq<char>, from: int, to: int)
    requires
        0 <= from <= to <= s.len(),
        forall|i: int| from <= i < to ==> #[trigger] sentence_end_at(s, i) is None,
    ensures
        sentence_boundary(s, from) == sentence_boundary(s, to),
    decreases to - from,
{
    if from < to {
        assert(sentence_end_at(s, from) is None);
        no_sentence_ends_before(s, from + 1, to);
    }
}

proof fn no_clause_ends_before(s: Seq<char>, from: int, to: int)
    requires
        0 <= from <= to <= s.len(),
        forall|i: int| from <= i < to ==> !#[trigger] clause_end_at(s, i),
    ensures
        clause_boundary(s, from) == clause_boundary(s, to),
    decreases to - from,
{
    if from < to {
        assert(!clause_end_at(s, from));
        no_clause_ends_before(s, from + 1, to);
    }
}

proof fn boundaries_lie_ahead(s: Seq<char>, i: int)
    requires
        0 <= i,
    ensures
        sentence_boundary(s, i) matches Some(b) ==> b > i,
        clause_boundary(s, i) matches Some(b) ==> b > i + 1,
    decreases s.len() - i,
{
    if i < s.len() {
        run_end_bounds(s, i + 1);
        boundaries_lie_ahead(s, i + 1);
    }
}

proof fn closers_run_on(s: Seq<char>, from: int, to: int)
    requires
        0 <= from <= to <= s.len(),
        forall|i: int| from <= i < to ==> closes_sentence(#[trigger] s[i]),
        to == s.len() || !closes_sentence(s[to]),
    ensures
        run_end(s, from) == to,
    decreases to - from,
{
    if from < to {
        closers_run_on(s, from + 1, to);
    }
}

/// Nothing is spoken as long as no sentence ends: a full stop, an exclamation or
/// a question mark within a word ends none, and a comma ends the first clause
/// only behind enough text and before a space.
pub proof fn nothing_is_spoken_within_a_sentence(state: ChunkerView)
    requires
        forall|i: int|
            0 <= i < state.buffer.len() && ((#[trigger] state.buffer[i]) == '.' || state.buffer[i]
                == '!' || state.buffer[i] == '?') ==> i + 1 < state.buffer.len() && !seq![
                '.',
                '!',
                '?',
                '"',
                '\'',
                ')',
                ' ',
                '\t',
                '\n',
                '\x0C',
                '\r',
            ].contains(state.buffer[i + 1]),
        forall|i: int| 0 < i < state.buffer.len() ==> (#[trigger] state.buffer[i]) != '\n',
        state.released_any || forall|i: int|
            0 <= i < state.buffer.len() && ((#[trigger] state.buffer[i]) == ','
                || state.buffer[i] == ';') ==> byte_len(state.buffer.take(i)) < 20 || i + 1
                == state.buffer.len() || !seq![' ', '\t', '\n', '\x0C', '\r'].contains(
                state.buffer[i + 1],
            ),
    ensures
        released(state).0.len() == 0,
        released(state).1 == state,
{
    let s = state.buffer;
    let stops = seq!['.', '!', '?', '"', '\'', ')', ' ', '\t', '\n', '\x0C', '\r'];
    let spaces = seq![' ', '\t', '\n', '\x0C', '\r'];
    assert forall|c: char| closes_sentence(c) || ascii_whitespace(c) implies stops.contains(c) by {
        assert(stops[0] == '.' && stops[1] == '!' && stops[2] == '?' && stops[3] == '"');
        assert(stops[4] == '\'' && stops[5] == ')' && stops[6] == ' ' && stops[7] == '\t');
        assert(stops[8] == '\n' && stops[9] == '\x0C' && stops[10] == '\r');
    }
    assert forall|c: char| ascii_whitespace(c) implies spaces.contains(c) by {
        assert(spaces[0] == ' ' && spaces[1] == '\t' && spaces[2] == '\n');
        assert(spaces[3] == '\x0C' && spaces[4] == '\r');
    }
    assert forall|i: int| 0 <= i < s.len() implies #[trigger] sentence_end_at(s, i) is None by {
        if ends_sentence(s[i]) {
            assert(!stops.contains(s[i + 1]));
            assert(run_end(s, i + 1) == i + 1);
        }
    }
    no_sentence_ends_before(s, 0, s.len() as int);
    if !state.released_any {
        assert forall|i: int| 0 <= i < s.len() implies !#[trigger] clause_end_at(s, i) by {
            if s[i] == ',' || s[i] == ';' {
                if i + 1 < s.len() && byte_len(s.take(i)) >= 20 {
                    assert(!spaces.contains(s[i + 1]));
                }
            }
        }
        no_clause_ends_before(s, 0, s.len() as int);
    }
}

/// Whether some words hold no end of a sentence, and, where a clause counts too,
/// none of a clause.
pub open spec fn unbroken(words: Seq<char>, clauses_too: bool) -> bool {
    &&& !words.contains('.') && !words.contains('!') && !words.contains('?') && !words.contains(
        '\n',
    )
    &&& clauses_too ==> !words.contains(',') && !words.contains(';')
}

/// A sentence is spoken as soon as it has ended, with the quotes and brackets
/// that close it, and what follows is left for later.
pub proof fn a_sentence_is_spoken_as_it_ends(
    state: ChunkerView,
    words: Seq<char>,
    end: char,
    closers: Seq<char>,
    rest: Seq<char>,
)
    requires
        unbroken(words, !state.released_any),
        end == '.' || end == '!' || end == '?',
        forall|i: int|
            0 <= i < closers.len() ==> seq!['.', '!', '?', '"', '\'', ')'].contains(
                #[trigger] closers[i],
            ),
        rest.len() == 0 || rest[0] == ' ' || rest[0] == '\t' || rest[0] == '\n' || rest[0]
            == '\r',
        state.buffer == words.push(end) + closers + rest,
    ensures
        ({
            let later = released(ChunkerView { buffer: rest, released_any: true });
            released(state) == (seq![trim(words.push(end) + closers)] + later.0, later.1)
        }),
{
    let s = state.buffer;
    let w = words.len() as int;
    let n = w + 1 + closers.len();
    let marks = seq!['.', '!', '?', '"', '\'', ')'];
    assert forall|i: int| 0 <= i < w implies #[trigger] sentence_end_at(s, i) is None
        && !(!state.released_any && clause_end_at(s, i)) by {
        assert(s[i] == words[i]);
        assert(words.contains(words[i]));
    }
    assert forall|i: int| w <= i < n implies closes_sentence(#[trigger] s[i]) by {
        if i > w {
            assert(s[i] == closers[i - w - 1]);
            assert(marks.contains(s[i]));
            let k = choose|k: int| 0 <= k < marks.len() && marks[k] == s[i];
        }
    }
    if rest.len() > 0 {
        assert(s[n] == rest[0]);
    }
    closers_run_on(s, w + 1, n);
    assert(s[w] == end);
    no_sentence_ends_before(s, 0, w);
    assert(sentence_boundary(s, 0) == Some(n));
    if !state.released_any {
        assert forall|i: int| 0 <= i < n implies !#[trigger] clause_end_at(s, i) by {
            if i < w {
                assert(sentence_end_at(s, i) is None);
            } else {
                assert(closes_sentence(s[i]));
            }
        }
        no_clause_ends_before(s, 0, n);
        boundaries_lie_ahead(s, n);
    }
    assert(boundary(s, state.released_any) == Some(n));
    assert(s.take(n) =~= words.push(end) + closers);
    assert(s.skip(n) =~= rest);
    trimmed_to_nothing(s.take(n));
    assert(!is_whitespace(s.take(n)[w]));
}

/// A line that has words is spoken at its end.
pub proof fn a_line_is_spoken_as_it_ends(state: ChunkerView, words: Seq<char>, rest: Seq<char>)
    requires
        unbroken(words, !state.released_any),
        exists|i: int| 0 <= i < words.len() && !is_whitespace(#[trigger] words[i]),
        state.buffer == words.push('\n') + rest,
    ensures
        ({
            let later = released(ChunkerView { buffer: rest, released_any: true });
            released(state) == (seq![trim(words.push('\n'))] + later.0, later.1)
        }),
{
    let s = state.buffer;
    let w = words.len() as int;
    assert forall|i: int| 0 <= i < w implies #[trigger] sentence_end_at(s, i) is None
        && !(!state.released_any && clause_end_at(s, i)) by {
        assert(s[i] == words[i]);
        assert(words.contains(words[i]));
    }
    assert(s[w] == '\n');
    no_sentence_ends_before(s, 0, w);
    assert(sentence_boundary(s, 0) == Some(w + 1));
    if !state.released_any {
        assert forall|i: int| 0 <= i < w + 1 implies !#[trigger] clause_end_at(s, i) by {
            if i < w {
                assert(sentence_end_at(s, i) is None);
            }
        }
        no_clause_ends_before(s, 0, w + 1);
        boundaries_lie_ahead(s, w + 1);
    }
    assert(boundary(s, state.released_any) == Some(w + 1));
    assert(s.take(w + 1) =~= words.push('\n'));
    assert(s.skip(w + 1) =~= rest);
    trimmed_to_nothing(s.take(w + 1));
    let i = choose|i: int| 0 <= i < words.len() && !is_whitespace(#[trigger] words[i]);
    assert(!is_whitespace(s.take(w + 1)[i]));
}

/// The first thing that is spoken need not wait for its sentence: a clause of at
/// least twenty bytes is spoken at its comma or semicolon.
pub proof fn the_first_clause_is_spoken_as_it_ends(
    state: ChunkerView,
    words: Seq<char>,
    end: char,
    space: char,
    rest: Seq<char>,
)
    requires
        !state.released_any,
        unbroken(words, true),
        byte_len(words) >= 20,
        end == ',' || end == ';',
        space == ' ' || space == '\t' || space == '\n' || space == '\r',
        state.buffer == words.push(end).push(space) + rest,
    ensures
        ({
            let later = released(ChunkerView { buffer: rest, released_any: true });
            released(state) == (seq![trim(words.push(end).push(space))] + later.0, later.1)
        }),
{
    let s = state.buffer;
    let w = words.len() as int;
    assert forall|i: int| 0 <= i < w implies #[trigger] sentence_end_at(s, i) is None
        && !clause_end_at(s, i) by {
        assert(s[i] == words[i]);
        assert(words.contains(words[i]));
    }
    assert forall|i: int| 0 <= i < w implies !#[trigger] clause_end_at(s, i) by {
        assert(sentence_end_at(s, i) is None);
    }
    assert(s[w] == end && s[w + 1] == space);
    assert(s.take(w) =~= words);
    assert(sentence_end_at(s, w) is None);
    no_sentence_ends_before(s, 0, w + 1);
    no_clause_ends_before(s, 0, w);
    assert(clause_end_at(s, w));
    assert(clause_boundary(s, 0) == Some(w + 2));
    boundaries_lie_ahead(s, w + 1);
    assert(boundary(s, false) == Some(w + 2));
    assert(s.take(w + 2) =~= words.push(end).push(space));
    assert(s.skip(w + 2) =~= rest);
    trimmed_to_nothing(s.take(w + 2));
    assert(!is_whitespace(s.take(w + 2)[w]));
}

} // verus!
