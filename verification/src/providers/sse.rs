//! Server-sent events: the data in a stream of text that arrives in pieces.
use vstd::prelude::*;
use vstd::string::*;

use crate::prompts::chat::{find_first, first_index};
use crate::text::{
    from_chars, is_whitespace, matches_at, nothing_to_trim, same, starts_with, to_chars, trim,
    trim_start, trimmed_chars, views,
};

verus! {

/// What `String::from_utf8_lossy` makes of some bytes.
pub uninterp spec fn utf8_lossy(bytes: Seq<u8>) -> Seq<char>;

/// `String::from_utf8_lossy`: reads bytes as UTF-8, with U+FFFD in the place
/// of what is no UTF-8. The result depends on the bytes alone and is named
/// `utf8_lossy`; of bytes that are UTF-8 it is the text that they encode.
#[verifier::external_body]
pub(crate) fn decode_lossy(bytes: &[u8]) -> (r: String)
    ensures
        r@ == utf8_lossy(bytes@),
        vstd::utf8::valid_utf8(bytes@) ==> r@ == vstd::utf8::decode_utf8(bytes@),
{
    String::from_utf8_lossy(bytes).into_owned()
}

/// Adds a piece of a stream to a buffer.
pub fn append_piece(buffer: &mut String, piece: &[u8])
    ensures
        final(buffer)@ == old(buffer)@ + utf8_lossy(piece@),
{
    let text: String = decode_lossy(piece);
    buffer.append(text.as_str());
}

/// The position of the first blank line at or after `i`: of the first of two
/// line breaks in a row.
pub open spec fn blank_line(s: Seq<char>, i: int) -> Option<int>
    decreases s.len() - i,
{
    if i < 0 || i + 1 >= s.len() {
        None
    } else if s[i] == '\n' && s[i + 1] == '\n' {
        Some(i)
    } else {
        blank_line(s, i + 1)
    }
}

proof fn blank_line_bounds(s: Seq<char>, i: int)
    ensures
        blank_line(s, i) matches Some(p) ==> i <= p && p + 1 < s.len() && s[p] == '\n' && s[p + 1]
            == '\n',
    decreases s.len() - i,
{
    if 0 <= i && i + 1 < s.len() && !(s[i] == '\n' && s[i + 1] == '\n') {
        blank_line_bounds(s, i + 1);
    }
}

/// The data of a line: what follows `data:`, without the space around it.
pub open spec fn data_of(line: Seq<char>) -> Option<Seq<char>> {
    if starts_with(line, "data:"@) {
        Some(trim(line.skip(5)))
    } else {
        None
    }
}

proof fn first_index_bounds(s: Seq<char>, c: char, i: int)
    ensures
        first_index(s, c, i) matches Some(p) ==> i <= p < s.len() && s[p] == c,
    decreases s.len() - i,
{
    if 0 <= i < s.len() && s[i] != c {
        first_index_bounds(s, c, i + 1);
    }
}

/// The data of each line of a frame that has any.
pub open spec fn frame_data(frame: Seq<char>) -> Seq<Seq<char>>
    decreases frame.len(),
    via frame_data_decreases
{
    match first_index(frame, '\n', 0) {
        Some(k) => one_data(frame.take(k)) + frame_data(frame.skip(k + 1)),
        None => one_data(frame),
    }
}

#[via_fn]
proof fn frame_data_decreases(frame: Seq<char>) {
    first_index_bounds(frame, '\n', 0);
}

/// The data of a line, as a sequence.
pub open spec fn one_data(line: Seq<char>) -> Seq<Seq<char>> {
    match data_of(line) {
        Some(d) => seq![d],
        None => Seq::empty(),
    }
}

/// The data of the complete frames of a text, each of which a blank line ends.
pub open spec fn data_in(s: Seq<char>) -> Seq<Seq<char>>
    decreases s.len(),
    via data_in_decreases
{
    match blank_line(s, 0) {
        Some(i) => frame_data(s.take(i)) + data_in(s.skip(i + 2)),
        None => Seq::empty(),
    }
}

#[via_fn]
proof fn data_in_decreases(s: Seq<char>) {
    blank_line_bounds(s, 0);
}

/// What follows the last complete frame of a text.
pub open spec fn after_frames(s: Seq<char>) -> Seq<char>
    decreases s.len(),
    via after_frames_decreases
{
    match blank_line(s, 0) {
        Some(i) => after_frames(s.skip(i + 2)),
        None => s,
    }
}

#[via_fn]
proof fn after_frames_decreases(s: Seq<char>) {
    blank_line_bounds(s, 0);
}

fn find_blank(s: &Vec<char>) -> (r: Option<usize>)
    ensures
        match r {
            Some(p) => blank_line(s@, 0) == Some(p as int) && p + 1 < s@.len(),
            None => blank_line(s@, 0) is None,
        },
{
    let mut i: usize = 0;
    let total: usize = s.len();
    while i < total && total - i > 1
        invariant
            i <= s@.len(),
            total == s@.len(),
            blank_line(s@, 0) == blank_line(s@, i as int),
        decreases total - i,
    {
        if s[i] == '\n' && s[i + 1] == '\n' {
            return Some(i);
        }
        i += 1;
    }
    None
}

/// The characters `from..to`.
fn part(chars: &Vec<char>, from: usize, to: usize) -> (r: Vec<char>)
    requires
        from <= to <= chars@.len(),
    ensures
        r@ == chars@.subrange(from as int, to as int),
{
    let mut out: Vec<char> = Vec::new();
    let mut i: usize = from;
    while i < to
        invariant
            from <= i <= to <= chars@.len(),
            out@ == chars@.subrange(from as int, i as int),
        decreases to - i,
    {
        proof {
            assert(chars@.subrange(from as int, i as int + 1) =~= chars@.subrange(
                from as int,
                i as int,
            ).push(chars@[i as int]));
        }
        out.push(chars[i]);
        i += 1;
    }
    out
}

fn line_data(line: &Vec<char>) -> (r: Option<String>)
    ensures
        match r {
            Some(d) => data_of(line@) == Some(d@),
            None => data_of(line@) is None,
        },
{
    let prefix: Vec<char> = to_chars("data:");
    proof {
        reveal_strlit("data:");
    }
    if matches_at(line, &prefix, 0) {
        let rest: Vec<char> = part(line, 5, line.len());
        proof {
            assert(line@.skip(5) =~= line@.subrange(5, line@.len() as int));
        }
        Some(trimmed_chars(&rest))
    } else {
        None
    }
}

fn push_line_data(line: &Vec<char>, out: &mut Vec<String>)
    ensures
        views(final(out)@) == views(old(out)@) + one_data(line@),
{
    match line_data(line) {
        Some(d) => {
            out.push(d);
        },
        None => {},
    }
    proof {
        assert(views(out@) =~= views(old(out)@) + one_data(line@));
    }
}

fn push_frame_data(frame: &Vec<char>, out: &mut Vec<String>)
    ensures
        views(final(out)@) == views(old(out)@) + frame_data(frame@),
{
    let ghost before = views(out@);
    let mut from: usize = 0;
    let total: usize = frame.len();
    proof {
        assert(frame@.skip(0) =~= frame@);
    }
    loop
        invariant
            from <= total,
            total == frame@.len(),
            before == views(old(out)@),
            before + frame_data(frame@) == views(out@) + frame_data(frame@.skip(from as int)),
        decreases total - from,
    {
        let rest: Vec<char> = part(frame, from, total);
        let ghost done = views(out@);
        proof {
            assert(rest@ =~= frame@.skip(from as int));
        }
        match find_first(&rest, '\n') {
            Some(k) => {
                let line: Vec<char> = part(&rest, 0, k);
                proof {
                    assert(line@ =~= rest@.take(k as int));
                    assert(rest@.skip(k as int + 1) =~= frame@.skip(from + k + 1));
                }
                push_line_data(&line, out);
                proof {
                    assert(done + (one_data(line@) + frame_data(rest@.skip(k as int + 1))) =~= done
                        + one_data(line@) + frame_data(rest@.skip(k as int + 1)));
                }
                from = from + k + 1;
            },
            None => {
                push_line_data(&rest, out);
                return ;
            },
        }
    }
}

/// Takes the complete frames off the start of a buffer and gives their data;
/// what follows them stays in it.
pub fn take_data(buffer: &mut String) -> (r: Vec<String>)
    ensures
        views(r@) == data_in(old(buffer)@),
        final(buffer)@ == after_frames(old(buffer)@),
{
    let mut out: Vec<String> = Vec::new();
    let chars: Vec<char> = to_chars(buffer.as_str());
    let mut rest: Vec<char> = part(&chars, 0, chars.len());
    proof {
        assert(rest@ =~= chars@);
        assert(views(out@) =~= Seq::empty());
        assert(Seq::<Seq<char>>::empty() + data_in(rest@) =~= data_in(rest@));
    }
    loop
        invariant
            data_in(old(buffer)@) == views(out@) + data_in(rest@),
            after_frames(old(buffer)@) == after_frames(rest@),
        decreases rest@.len(),
    {
        match find_blank(&rest) {
            Some(i) => {
                let total: usize = rest.len();
                let frame: Vec<char> = part(&rest, 0, i);
                let next: Vec<char> = part(&rest, i + 2, total);
                let ghost done = views(out@);
                proof {
                    assert(frame@ =~= rest@.take(i as int));
                    assert(next@ =~= rest@.skip(i as int + 2));
                }
                push_frame_data(&frame, &mut out);
                proof {
                    assert(done + (frame_data(frame@) + data_in(next@)) =~= done + frame_data(
                        frame@,
                    ) + data_in(next@));
                }
                rest = next;
            },
            None => {
                proof {
                    assert(views(out@) + Seq::<Seq<char>>::empty() =~= views(out@));
                    assert(rest@.subrange(0, rest@.len() as int) =~= rest@);
                }
                *buffer = from_chars(&rest, 0, rest.len());
                return out;
            },
        }
    }
}

/// The data of the complete lines of a text, up to the line that ends the
/// stream; lines without data, and empty data, are passed over.
pub open spec fn line_data_in(s: Seq<char>) -> Seq<Seq<char>>
    decreases s.len(),
    via line_data_in_decreases
{
    match first_index(s, '\n', 0) {
        Some(i) => match data_of(s.take(i)) {
            Some(d) => if d.len() == 0 {
                line_data_in(s.skip(i + 1))
            } else if d == "[DONE]"@ {
                Seq::empty()
            } else {
                seq![d] + line_data_in(s.skip(i + 1))
            },
            None => line_data_in(s.skip(i + 1)),
        },
        None => Seq::empty(),
    }
}

#[via_fn]
proof fn line_data_in_decreases(s: Seq<char>) {
    first_index_bounds(s, '\n', 0);
}

/// What follows the last complete line of a text, or the line that ends the
/// stream.
pub open spec fn after_lines(s: Seq<char>) -> Seq<char>
    decreases s.len(),
    via after_lines_decreases
{
    match first_index(s, '\n', 0) {
        Some(i) => if data_of(s.take(i)) == Some("[DONE]"@) {
            s.skip(i + 1)
        } else {
            after_lines(s.skip(i + 1))
        },
        None => s,
    }
}

#[via_fn]
proof fn after_lines_decreases(s: Seq<char>) {
    first_index_bounds(s, '\n', 0);
}

/// One of the complete lines of a text ends the stream.
pub open spec fn ends_stream(s: Seq<char>) -> bool
    decreases s.len(),
    via ends_stream_decreases
{
    match first_index(s, '\n', 0) {
        Some(i) => data_of(s.take(i)) == Some("[DONE]"@) || ends_stream(s.skip(i + 1)),
        None => false,
    }
}

#[via_fn]
proof fn ends_stream_decreases(s: Seq<char>) {
    first_index_bounds(s, '\n', 0);
}

/// Takes the complete lines off the start of a buffer, up to the line that
/// ends the stream, and gives their data; what follows stays in it.
pub fn take_line_data(buffer: &mut String) -> (r: Vec<String>)
    ensures
        views(r@) == line_data_in(old(buffer)@),
        final(buffer)@ == after_lines(old(buffer)@),
{
    let mut out: Vec<String> = Vec::new();
    let chars: Vec<char> = to_chars(buffer.as_str());
    let mut rest: Vec<char> = part(&chars, 0, chars.len());
    proof {
        reveal_strlit("[DONE]");
        assert(rest@ =~= chars@);
        assert(views(out@) =~= Seq::empty());
        assert(Seq::<Seq<char>>::empty() + line_data_in(rest@) =~= line_data_in(rest@));
    }
    loop
        invariant
            "[DONE]"@.len() > 0,
            line_data_in(old(buffer)@) == views(out@) + line_data_in(rest@),
            after_lines(old(buffer)@) == after_lines(rest@),
        decreases rest@.len(),
    {
        match find_first(&rest, '\n') {
            Some(i) => {
                let total: usize = rest.len();
                let line: Vec<char> = part(&rest, 0, i);
                let next: Vec<char> = part(&rest, i + 1, total);
                let ghost done = views(out@);
                proof {
                    assert(line@ =~= rest@.take(i as int));
                    assert(next@ =~= rest@.skip(i as int + 1));
                }
                match line_data(&line) {
                    Some(d) => {
                        if same(d.as_str(), "[DONE]") {
                            proof {
                                assert(done + Seq::<Seq<char>>::empty() =~= done);
                                assert(next@.subrange(0, next@.len() as int) =~= next@);
                            }
                            *buffer = from_chars(&next, 0, next.len());
                            return out;
                        }
                        if !d.as_str().is_empty() {
                            out.push(d);
                            proof {
                                assert(views(out@) =~= done.push(d@));
                                assert(done.push(d@) + line_data_in(next@) =~= done + (seq![d@]
                                    + line_data_in(next@)));
                            }
                        }
                    },
                    None => {},
                }
                rest = next;
            },
            None => {
                proof {
                    assert(views(out@) + Seq::<Seq<char>>::empty() =~= views(out@));
                    assert(rest@.subrange(0, rest@.len() as int) =~= rest@);
                }
                *buffer = from_chars(&rest, 0, rest.len());
                return out;
            },
        }
    }
}

proof fn blank_line_in_longer(a: Seq<char>, b: Seq<char>, i: int)
    requires
        blank_line(a, i) is Some,
    ensures
        blank_line(a + b, i) == blank_line(a, i),
    decreases a.len() - i,
{
    if !(a[i] == '\n' && a[i + 1] == '\n') {
        blank_line_in_longer(a, b, i + 1);
    }
}

/// How a stream of frames is cut into pieces makes no difference: reading a
/// piece, and then what was left of it with the next piece, gives the data
/// that reading both at once gives, and leaves the same.
pub proof fn frames_do_not_depend_on_the_pieces(a: Seq<char>, b: Seq<char>)
    ensures
        data_in(a + b) == data_in(a) + data_in(after_frames(a) + b),
        after_frames(a + b) == after_frames(after_frames(a) + b),
    decreases a.len(),
{
    blank_line_bounds(a, 0);
    match blank_line(a, 0) {
        Some(i) => {
            blank_line_in_longer(a, b, 0);
            let rest = a.skip(i + 2);
            assert((a + b).take(i) =~= a.take(i));
            assert((a + b).skip(i + 2) =~= rest + b);
            frames_do_not_depend_on_the_pieces(rest, b);
            assert(frame_data(a.take(i)) + (data_in(rest) + data_in(after_frames(rest) + b))
                =~= frame_data(a.take(i)) + data_in(rest) + data_in(after_frames(rest) + b));
        },
        None => {
            assert(Seq::<Seq<char>>::empty() + data_in(a + b) =~= data_in(a + b));
        },
    }
}

/// What is left in the buffer holds no complete frame, and is the end of what
/// was in it: nothing of a frame that is still to come gets lost.
pub proof fn a_partial_frame_stays(s: Seq<char>)
    ensures
        data_in(after_frames(s)) == Seq::<Seq<char>>::empty(),
        after_frames(s).len() <= s.len(),
        after_frames(s) == s.skip(s.len() - after_frames(s).len()),
    decreases s.len(),
{
    blank_line_bounds(s, 0);
    match blank_line(s, 0) {
        Some(i) => {
            a_partial_frame_stays(s.skip(i + 2));
            assert(after_frames(s) =~= s.skip(s.len() - after_frames(s).len()));
        },
        None => {
            assert(s.skip(0) =~= s);
        },
    }
}

proof fn first_index_in_longer(a: Seq<char>, b: Seq<char>, c: char, i: int)
    requires
        first_index(a, c, i) is Some,
    ensures
        first_index(a + b, c, i) == first_index(a, c, i),
    decreases a.len() - i,
{
    if a[i] != c {
        first_index_in_longer(a, b, c, i + 1);
    }
}

/// Until the line that ends the stream, how a stream of lines is cut into
/// pieces makes no difference.
pub proof fn lines_do_not_depend_on_the_pieces(a: Seq<char>, b: Seq<char>)
    requires
        !ends_stream(a),
    ensures
        line_data_in(a + b) == line_data_in(a) + line_data_in(after_lines(a) + b),
        after_lines(a + b) == after_lines(after_lines(a) + b),
    decreases a.len(),
{
    first_index_bounds(a, '\n', 0);
    match first_index(a, '\n', 0) {
        Some(i) => {
            first_index_in_longer(a, b, '\n', 0);
            let rest = a.skip(i + 1);
            assert((a + b).take(i) =~= a.take(i));
            assert((a + b).skip(i + 1) =~= rest + b);
            lines_do_not_depend_on_the_pieces(rest, b);
            match data_of(a.take(i)) {
                Some(d) => {
                    assert(seq![d] + (line_data_in(rest) + line_data_in(after_lines(rest) + b))
                        =~= seq![d] + line_data_in(rest) + line_data_in(after_lines(rest) + b));
                },
                None => {},
            }
        },
        None => {
            assert(Seq::<Seq<char>>::empty() + line_data_in(a + b) =~= line_data_in(a + b));
        },
    }
}

/// The line that ends the stream is the last whose data is given: what follows
/// it changes nothing.
pub proof fn nothing_is_read_after_the_end(a: Seq<char>, b: Seq<char>)
    requires
        ends_stream(a),
    ensures
        line_data_in(a + b) == line_data_in(a),
        after_lines(a + b) == after_lines(a) + b,
    decreases a.len(),
{
    first_index_bounds(a, '\n', 0);
    match first_index(a, '\n', 0) {
        Some(i) => {
            first_index_in_longer(a, b, '\n', 0);
            let rest = a.skip(i + 1);
            reveal_strlit("[DONE]");
            assert((a + b).take(i) =~= a.take(i));
            assert((a + b).skip(i + 1) =~= rest + b);
            if data_of(a.take(i)) != Some("[DONE]"@) {
                nothing_is_read_after_the_end(rest, b);
            }
        },
        None => {},
    }
}

/// A text without a line's end.
pub open spec fn one_line(s: Seq<char>) -> bool {
    forall|i: int| 0 <= i < s.len() ==> #[trigger] s[i] != '\n'
}

proof fn the_line_ends_there(line: Seq<char>, rest: Seq<char>, i: int)
    requires
        one_line(line),
        0 <= i <= line.len(),
    ensures
        first_index(line + seq!['\n'] + rest, '\n', i) == Some(line.len() as int),
    decreases line.len() - i,
{
    let s = line + seq!['\n'] + rest;
    if i < line.len() {
        assert(s[i] == line[i]);
        the_line_ends_there(line, rest, i + 1);
    }
}

proof fn no_line_ends(s: Seq<char>, i: int)
    requires
        one_line(s),
        0 <= i,
    ensures
        first_index(s, '\n', i) is None,
    decreases s.len() - i,
{
    if i < s.len() {
        no_line_ends(s, i + 1);
    }
}

proof fn the_frame_ends_there(frame: Seq<char>, rest: Seq<char>, i: int)
    requires
        frame.len() > 0,
        frame.last() != '\n',
        forall|k: int|
            0 <= k && k + 1 < frame.len() ==> !(#[trigger] frame[k] == '\n' && frame[k + 1] == '\n'),
        0 <= i <= frame.len(),
    ensures
        blank_line(frame + "\n\n"@ + rest, i) == Some(frame.len() as int),
    decreases frame.len() - i,
{
    reveal_strlit("\n\n");
    let s = frame + "\n\n"@ + rest;
    if i < frame.len() {
        assert(s[i] == frame[i]);
        if i + 1 < frame.len() {
            assert(s[i + 1] == frame[i + 1]);
        }
        the_frame_ends_there(frame, rest, i + 1);
    }
}

proof fn data_lines_are_read(data: Seq<char>)
    requires
        trim(data) == data,
    ensures
        data_of("data: "@ + data) == Some(data),
        data_of("data:"@ + data) == Some(data),
{
    reveal_strlit("data:");
    reveal_strlit("data: ");
    let spaced = "data: "@ + data;
    let tight = "data:"@ + data;
    assert(spaced.subrange(0, 5) =~= "data:"@);
    assert(tight.subrange(0, 5) =~= "data:"@);
    assert(tight.skip(5) =~= data);
    assert(spaced.skip(5) =~= seq![' '] + data);
    let s = seq![' '] + data;
    assert(s.drop_first() =~= data);
    assert(is_whitespace(' '));
    assert(trim_start(s) == trim_start(data));
}

/// What is sent in a frame is read as it was sent, whatever follows: a frame with
/// one line of data gives the data, other lines of the frame give nothing, and
/// what comes after the frame is read in its turn.
pub proof fn a_frame_is_read_as_sent(other: Seq<char>, data: Seq<char>, rest: Seq<char>)
    requires
        one_line(data) && one_line(other),
        trim(data) == data,
        data.len() > 0,
        other.len() > 0 && !starts_with(other, "data:"@),
    ensures
        data_in("data: "@ + data + "\n\n"@ + rest) == seq![data] + data_in(rest),
        after_frames("data: "@ + data + "\n\n"@ + rest) == after_frames(rest),
        data_in(other + seq!['\n'] + "data: "@ + data + "\n\n"@ + rest) == seq![data] + data_in(
            rest,
        ),
{
    reveal_strlit("data: ");
    reveal_strlit("\n\n");
    let line = "data: "@ + data;
    data_lines_are_read(data);
    assert(one_line(line)) by {
        assert forall|i: int| 0 <= i < line.len() implies #[trigger] line[i] != '\n' by {
            if i >= 6 {
                assert(line[i] == data[i - 6]);
            }
        }
    }
    assert(line.last() == data.last());
    the_frame_ends_there(line, rest, 0);
    let s = line + "\n\n"@ + rest;
    assert(s.take(line.len() as int) =~= line);
    assert(s.skip(line.len() as int + 2) =~= rest);
    no_line_ends(line, 0);
    assert(frame_data(line) =~= seq![data]);
    let frame = other + seq!['\n'] + line;
    let whole = other + seq!['\n'] + "data: "@ + data + "\n\n"@ + rest;
    assert(whole =~= frame + "\n\n"@ + rest);
    assert(frame.last() == line.last());
    assert forall|k: int| 0 <= k && k + 1 < frame.len() implies !(#[trigger] frame[k] == '\n'
        && frame[k + 1] == '\n') by {
        if k < other.len() {
            assert(frame[k] == other[k]);
        } else if k == other.len() {
            assert(frame[k + 1] == line[0]);
        } else {
            assert(frame[k] == line[k - other.len() - 1]);
        }
    }
    the_frame_ends_there(frame, rest, 0);
    assert(whole.take(frame.len() as int) =~= frame);
    assert(whole.skip(frame.len() as int + 2) =~= rest);
    the_line_ends_there(other, line, 0);
    assert(frame.take(other.len() as int) =~= other);
    assert(frame.skip(other.len() as int + 1) =~= line);
    assert(one_data(other) == Seq::<Seq<char>>::empty());
    assert(frame_data(frame) =~= seq![data]);
}

/// What is sent in a line is read as it was sent, whatever follows, up to the
/// mark of the end; lines of no data give nothing.
pub proof fn a_line_is_read_as_sent(other: Seq<char>, data: Seq<char>, rest: Seq<char>)
    requires
        one_line(data) && one_line(other),
        trim(data) == data,
        data.len() > 0,
        data != "[DONE]"@,
        !starts_with(other, "data:"@),
    ensures
        line_data_in("data: "@ + data + seq!['\n'] + rest) == seq![data] + line_data_in(rest),
        after_lines("data: "@ + data + seq!['\n'] + rest) == after_lines(rest),
        line_data_in(other + seq!['\n'] + rest) == line_data_in(rest),
        line_data_in("data: [DONE]"@ + seq!['\n'] + rest).len() == 0,
        after_lines("data: [DONE]"@ + seq!['\n'] + rest) == rest,
{
    let line = "data: "@ + data;
    a_data_line(data);
    a_line_is_read(line, rest);
    a_line_is_read(other, rest);
    the_end_is_marked();
    a_line_is_read("data: [DONE]"@, rest);
}

proof fn a_data_line(data: Seq<char>)
    requires
        one_line(data),
        trim(data) == data,
    ensures
        one_line("data: "@ + data),
        data_of("data: "@ + data) == Some(data),
{
    data_lines_are_read(data);
    reveal_strlit("data: ");
    let line = "data: "@ + data;
    assert forall|i: int| 0 <= i < line.len() implies #[trigger] line[i] != '\n' by {
        if i >= 6 {
            assert(line[i] == data[i - 6]);
        }
    }
}

proof fn a_line_is_read(line: Seq<char>, rest: Seq<char>)
    requires
        one_line(line),
    ensures
        line_data_in(line + seq!['\n'] + rest) == (match data_of(line) {
            Some(d) => if d.len() == 0 {
                line_data_in(rest)
            } else if d == "[DONE]"@ {
                Seq::empty()
            } else {
                seq![d] + line_data_in(rest)
            },
            None => line_data_in(rest),
        }),
        after_lines(line + seq!['\n'] + rest) == (if data_of(line) == Some("[DONE]"@) {
            rest
        } else {
            after_lines(rest)
        }),
{
    the_line_ends_there(line, rest, 0);
    let s = line + seq!['\n'] + rest;
    assert(s.take(line.len() as int) =~= line);
    assert(s.skip(line.len() as int + 1) =~= rest);
}

proof fn the_end_is_marked()
    ensures
        one_line("data: [DONE]"@),
        data_of("data: [DONE]"@) == Some("[DONE]"@),
        "[DONE]"@.len() > 0,
{
    reveal_strlit("data: ");
    reveal_strlit("data: [DONE]");
    reveal_strlit("[DONE]");
    let done = "[DONE]"@;
    assert(done.len() == 6 && done[0] == '[' && done[5] == ']');
    nothing_to_trim(done);
    assert(one_line(done)) by {
        assert forall|i: int| 0 <= i < done.len() implies #[trigger] done[i] != '\n' by {}
    }
    a_data_line(done);
    assert("data: [DONE]"@ =~= "data: "@ + done);
}

} // verus!
