//! Text as a sequence of characters: the string operations that the rest of
//! the library is stated with.
use vstd::prelude::*;
use vstd::string::*;

verus! {

/// `String::push` appends one character.
pub assume_specification[ String::push ](s: &mut String, c: char)
    ensures
        final(s)@ == old(s)@.push(c),
;

/// What `str::to_lowercase` returns for a text.
pub uninterp spec fn lowercase(s: Seq<char>) -> Seq<char>;

/// The lower-case letter of an upper-case ASCII letter; any other character
/// itself.
pub open spec fn ascii_lower(c: char) -> char {
    if 'A' <= c <= 'Z' {
        ((c as u32 + 32) as u32) as char
    } else {
        c
    }
}

/// Every character is an ASCII character.
pub open spec fn is_ascii(s: Seq<char>) -> bool {
    forall|i: int| 0 <= i < s.len() ==> (#[trigger] s[i]) as u32 <= 127
}

/// `str::to_lowercase`: Unicode lower-casing. On a text of ASCII characters
/// only, each letter is replaced by its lower-case form and nothing else
/// changes; for other texts the result is named and not described.
#[verifier::external_body]
pub(crate) fn to_lowercase(s: &str) -> (r: String)
    ensures
        r@ == lowercase(s@),
        is_ascii(s@) ==> r@ == s@.map_values(|c: char| ascii_lower(c)),
{
    s.to_lowercase()
}

/// What `char::is_alphanumeric` returns for a character.
pub uninterp spec fn alphanumeric(c: char) -> bool;

/// The ASCII letters and digits.
pub open spec fn ascii_alphanumeric(c: char) -> bool {
    ||| 'a' <= c <= 'z'
    ||| 'A' <= c <= 'Z'
    ||| '0' <= c <= '9'
}

/// `char::is_alphanumeric`: the Unicode Alphabetic and numeric characters.
/// Among the ASCII characters these are the letters and the digits; for other
/// characters the result is named and not described.
#[verifier::external_body]
pub(crate) fn is_alphanumeric(c: char) -> (r: bool)
    ensures
        r == alphanumeric(c),
        c as u32 <= 127 ==> r == ascii_alphanumeric(c),
{
    c.is_alphanumeric()
}

/// The characters with the Unicode property White_Space.
pub open spec fn is_whitespace(c: char) -> bool {
    let u = c as u32;
    ||| 9 <= u <= 13
    ||| u == 0x20
    ||| u == 0x85
    ||| u == 0xA0
    ||| u == 0x1680
    ||| 0x2000 <= u <= 0x200A
    ||| u == 0x2028
    ||| u == 0x2029
    ||| u == 0x202F
    ||| u == 0x205F
    ||| u == 0x3000
}

/// Whether a character has the property White_Space.
pub fn whitespace(c: char) -> (r: bool)
    ensures
        r == is_whitespace(c),
{
    let u: u32 = c as u32;
    (9 <= u && u <= 13) || u == 0x20 || u == 0x85 || u == 0xA0 || u == 0x1680 || (0x2000 <= u && u
        <= 0x200A) || u == 0x2028 || u == 0x2029 || u == 0x202F || u == 0x205F || u == 0x3000
}

/// The characters of a text, in order.
pub fn to_chars(s: &str) -> (r: Vec<char>)
    ensures
        r@ == s@,
{
    let mut out: Vec<char> = Vec::new();
    for c in it: s.chars()
        invariant
            it.seq() == s@,
            out@ == s@.take(it.index()),
    {
        proof {
            assert(s@.take(it.index() + 1) =~= s@.take(it.index()).push(c));
        }
        out.push(c);
    }
    proof {
        assert(s@.take(s@.len() as int) =~= s@);
    }
    out
}

/// The text made of the characters `from..to` of `chars`.
pub fn from_chars(chars: &Vec<char>, from: usize, to: usize) -> (r: String)
    requires
        from <= to <= chars@.len(),
    ensures
        r@ == chars@.subrange(from as int, to as int),
{
    let mut out: String = String::new();
    let mut i: usize = from;
    while i < to
        invariant
            from <= i <= to <= chars@.len(),
            out@ == chars@.subrange(from as int, i as int),
        decreases to - i,
    {
        proof {
            assert(chars@.subrange(from as int, i as int + 1) =~= chars@.subrange(
                from as int,
                i as int,
            ).push(chars@[i as int]));
        }
        out.push(chars[i]);
        i += 1;
    }
    out
}

/// Whether two texts hold the same characters.
pub fn same(a: &str, b: &str) -> (r: bool)
    ensures
        r == (a@ == b@),
{
    let x: String = a.to_owned();
    let y: String = b.to_owned();
    x == y
}

/// A text without its leading whitespace.
pub open spec fn trim_start(s: Seq<char>) -> Seq<char>
    decreases s.len(),
{
    if s.len() > 0 && is_whitespace(s[0]) {
        trim_start(s.drop_first())
    } else {
        s
    }
}

/// A text without its trailing whitespace.
pub open spec fn trim_end(s: Seq<char>) -> Seq<char>
    decreases s.len(),
{
    if s.len() > 0 && is_whitespace(s.last()) {
        trim_end(s.drop_last())
    } else {
        s
    }
}

/// A text without its leading and trailing whitespace.
pub open spec fn trim(s: Seq<char>) -> Seq<char> {
    trim_end(trim_start(s))
}

/// Removes leading and trailing whitespace.
pub fn trimmed(s: &str) -> (r: String)
    ensures
        r@ == trim(s@),
{
    let chars: Vec<char> = to_chars(s);
    trimmed_chars(&chars)
}

/// Removes leading and trailing whitespace from a sequence of characters.
pub fn trimmed_chars(chars: &Vec<char>) -> (r: String)
    ensures
        r@ == trim(chars@),
{
    let mut from: usize = 0;
    proof {
        assert(chars@.skip(0) =~= chars@);
    }
    while from < chars.len() && whitespace(chars[from])
        invariant
            from <= chars@.len(),
            trim_start(chars@) == trim_start(chars@.skip(from as int)),
        decreases chars@.len() - from,
    {
        proof {
            let rest = chars@.skip(from as int);
            assert(rest.drop_first() =~= chars@.skip(from as int + 1));
        }
        from += 1;
    }
    let ghost body = chars@.skip(from as int);
    let mut to: usize = chars.len();
    proof {
        assert(trim_start(chars@) == body);
        assert(body.take(to - from) =~= body);
    }
    while from < to && whitespace(chars[to - 1])
        invariant
            from <= to <= chars@.len(),
            body == chars@.skip(from as int),
            trim_end(body) == trim_end(body.take(to - from)),
        decreases to,
    {
        proof {
            assert(body.take(to - from).drop_last() =~= body.take(to - from - 1));
        }
        to -= 1;
    }
    proof {
        assert(body.take(to - from) =~= chars@.subrange(from as int, to as int));
        if from < to {
            assert(body.take(to - from).last() == chars@[to - 1]);
        }
    }
    from_chars(chars, from, to)
}

/// `needle` stands in `hay` at position `i`.
pub open spec fn occurs_at(hay: Seq<char>, needle: Seq<char>, i: int) -> bool {
    &&& 0 <= i
    &&& i + needle.len() <= hay.len()
    &&& hay.subrange(i, i + needle.len()) == needle
}

/// `needle` stands somewhere in `hay`.
pub open spec fn contains(hay: Seq<char>, needle: Seq<char>) -> bool {
    exists|i: int| occurs_at(hay, needle, i)
}

/// `needle` stands at the start of `hay`.
pub open spec fn starts_with(hay: Seq<char>, needle: Seq<char>) -> bool {
    occurs_at(hay, needle, 0)
}

/// `needle` stands at the end of `hay`.
pub open spec fn ends_with(hay: Seq<char>, needle: Seq<char>) -> bool {
    occurs_at(hay, needle, hay.len() - needle.len())
}

/// Whether `needle` stands in `hay` at position `at`.
pub fn matches_at(hay: &Vec<char>, needle: &Vec<char>, at: usize) -> (r: bool)
    ensures
        r == occurs_at(hay@, needle@, at as int),
{
    if needle.len() > hay.len() || at > hay.len() - needle.len() {
        return false;
    }
    let total: usize = hay.len();
    let mut k: usize = 0;
    while k < needle.len()
        invariant
            k <= needle@.len(),
            total == hay@.len(),
            at + needle@.len() <= hay@.len(),
            forall|j: int| 0 <= j < k ==> hay@[at + j] == needle@[j],
        decreases needle@.len() - k,
    {
        if hay[at + k] != needle[k] {
            proof {
                assert(hay@.subrange(at as int, at + needle@.len())[k as int] == hay@[at + k]);
            }
            return false;
        }
        k += 1;
    }
    proof {
        assert(hay@.subrange(at as int, at + needle@.len()) =~= needle@);
    }
    true
}

/// The first position at or after `from` where `needle` stands in `hay`.
pub fn find_from(hay: &Vec<char>, needle: &Vec<char>, from: usize) -> (r: Option<usize>)
    ensures
        match r {
            Some(p) => {
                &&& from <= p
                &&& occurs_at(hay@, needle@, p as int)
                &&& forall|i: int| from <= i < p ==> !occurs_at(hay@, needle@, i)
            },
            None => forall|i: int| from <= i ==> !occurs_at(hay@, needle@, i),
        },
{
    if from > hay.len() {
        return None;
    }
    let mut i: usize = from;
    while i < hay.len()
        invariant
            from <= i <= hay@.len(),
            forall|j: int| from <= j < i ==> !occurs_at(hay@, needle@, j),
        decreases hay@.len() - i,
    {
        if matches_at(hay, needle, i) {
            return Some(i);
        }
        i += 1;
    }
    if matches_at(hay, needle, i) {
        return Some(i);
    }
    None
}

/// Whether `needle` stands somewhere in `hay`.
pub fn has(hay: &str, needle: &str) -> (r: bool)
    ensures
        r == contains(hay@, needle@),
{
    let h: Vec<char> = to_chars(hay);
    let n: Vec<char> = to_chars(needle);
    find_from(&h, &n, 0).is_some()
}

/// Whether `hay` begins with `needle`.
pub fn begins_with(hay: &str, needle: &str) -> (r: bool)
    ensures
        r == starts_with(hay@, needle@),
{
    let h: Vec<char> = to_chars(hay);
    let n: Vec<char> = to_chars(needle);
    matches_at(&h, &n, 0)
}

/// The parts of a text, each but the first preceded by `sep`.
pub open spec fn joined(parts: Seq<Seq<char>>, sep: Seq<char>) -> Seq<char>
    decreases parts.len(),
{
    if parts.len() == 0 {
        Seq::empty()
    } else if parts.len() == 1 {
        parts[0]
    } else {
        joined(parts.drop_last(), sep) + sep + parts.last()
    }
}

/// The views of a sequence of strings.
pub open spec fn views(parts: Seq<String>) -> Seq<Seq<char>> {
    parts.map_values(|s: String| s@)
}

/// Joins strings with a separator.
pub fn join(parts: &Vec<String>, sep: &str) -> (r: String)
    ensures
        r@ == joined(views(parts@), sep@),
{
    let mut out: String = String::new();
    let mut i: usize = 0;
    while i < parts.len()
        invariant
            i <= parts@.len(),
            out@ == joined(views(parts@).take(i as int), sep@),
        decreases parts@.len() - i,
    {
        if i > 0 {
            out.append(sep);
        }
        out.append(parts[i].as_str());
        proof {
            let next = views(parts@).take(i as int + 1);
            assert(next.drop_last() =~= views(parts@).take(i as int));
            assert(next.last() == parts@[i as int]@);
            assert(Seq::<char>::empty() + parts@[i as int]@ =~= parts@[i as int]@);
        }
        i += 1;
    }
    proof {
        assert(views(parts@).take(i as int) =~= views(parts@));
    }
    out
}

/// The character of a decimal digit.
pub open spec fn digit_char(d: nat) -> char {
    (48 + d) as char
}

/// A number in decimal notation, without leading zeros.
pub open spec fn decimal(n: nat) -> Seq<char>
    decreases n,
{
    if n < 10 {
        seq![digit_char(n)]
    } else {
        decimal(n / 10).push(digit_char(n % 10))
    }
}

/// Writes a number in decimal notation.
pub fn decimal_text(n: u64) -> (r: String)
    ensures
        r@ == decimal(n as nat),
    decreases n,
{
    let d: u8 = (n % 10) as u8;
    let c: char = (48u8 + d) as char;
    if n < 10 {
        let mut out: String = String::new();
        out.push(c);
        proof {
            assert(out@ =~= seq![digit_char(n as nat)]);
        }
        out
    } else {
        let mut out: String = decimal_text(n / 10);
        out.push(c);
        out
    }
}

/// The number of bytes of a character in UTF-8.
pub open spec fn width(c: char) -> nat {
    let u = c as u32;
    if u < 0x80 {
        1
    } else if u < 0x800 {
        2
    } else if u < 0x1_0000 {
        3
    } else {
        4
    }
}

/// The number of bytes of a text in UTF-8.
pub open spec fn byte_len(s: Seq<char>) -> nat
    decreases s.len(),
{
    if s.len() == 0 {
        0
    } else {
        byte_len(s.drop_last()) + width(s.last())
    }
}

proof fn byte_len_from_front(s: Seq<char>)
    requires
        s.len() > 0,
    ensures
        byte_len(s) == width(s[0]) + byte_len(s.drop_first()),
    decreases s.len(),
{
    reveal_with_fuel(byte_len, 2);
    if s.len() > 1 {
        byte_len_from_front(s.drop_last());
        assert(s.drop_last().drop_first() =~= s.drop_first().drop_last());
    } else {
        assert(s.drop_last() =~= Seq::empty());
        assert(s.drop_first() =~= Seq::empty());
    }
}

/// The number of bytes of a text is that of its encoding in UTF-8.
pub proof fn byte_len_is_encoded_len(s: Seq<char>)
    ensures
        vstd::utf8::encode_utf8(s).len() == byte_len(s),
    decreases s.len(),
{
    if s.len() > 0 {
        byte_len_from_front(s);
        byte_len_is_encoded_len(s.drop_first());
        vstd::utf8::char_is_scalar(s[0]);
        assert(vstd::utf8::encode_utf8(s) == vstd::utf8::encode_scalar(s[0] as u32)
            + vstd::utf8::encode_utf8(s.drop_first()));
    }
}

/// Counts the bytes of a text in UTF-8.
pub fn len_bytes(s: &str) -> (r: usize)
    ensures
        r == byte_len(s@),
{
    let b: &[u8] = s.as_bytes();
    proof {
        byte_len_is_encoded_len(s@);
    }
    b.len()
}

/// The number of bytes of a character in UTF-8.
pub fn char_width(c: char) -> (r: usize)
    ensures
        r == width(c),
{
    let u: u32 = c as u32;
    if u < 0x80 {
        1
    } else if u < 0x800 {
        2
    } else if u < 0x1_0000 {
        3
    } else {
        4
    }
}

/// A text without its whitespace.
pub open spec fn visible(s: Seq<char>) -> Seq<char> {
    s.filter(|c: char| !is_whitespace(c))
}

/// The texts one after the other.
pub open spec fn concat(parts: Seq<Seq<char>>) -> Seq<char>
    decreases parts.len(),
{
    if parts.len() == 0 {
        Seq::empty()
    } else {
        parts[0] + concat(parts.drop_first())
    }
}

/// Taking two texts together takes their visible characters together.
pub proof fn visible_of_both(a: Seq<char>, b: Seq<char>)
    ensures
        visible(a + b) == visible(a) + visible(b),
{
    Seq::filter_distributes_over_add(a, b, |c: char| !is_whitespace(c));
}

/// A whitespace character has no visible part; any other is all visible.
pub proof fn visible_of_one(c: char)
    ensures
        visible(seq![c]) == (if is_whitespace(c) {
            Seq::empty()
        } else {
            seq![c]
        }),
{
    reveal(Seq::filter);
    assert(seq![c].drop_last() =~= Seq::<char>::empty());
    assert(Seq::<char>::empty().filter(|c: char| !is_whitespace(c)) =~= Seq::empty());
    assert(seq![c].last() == c);
    assert(visible(seq![c]) =~= (if is_whitespace(c) {
        Seq::empty()
    } else {
        seq![c]
    }));
}

/// Trimming loses no visible character.
pub proof fn trim_keeps_visible(s: Seq<char>)
    ensures
        visible(trim(s)) == visible(s),
{
    trim_start_keeps_visible(s);
    trim_end_keeps_visible(trim_start(s));
}

proof fn trim_start_keeps_visible(s: Seq<char>)
    ensures
        visible(trim_start(s)) == visible(s),
    decreases s.len(),
{
    if s.len() > 0 && is_whitespace(s[0]) {
        trim_start_keeps_visible(s.drop_first());
        assert(s =~= seq![s[0]] + s.drop_first());
        visible_of_both(seq![s[0]], s.drop_first());
        visible_of_one(s[0]);
        assert(Seq::<char>::empty() + visible(s.drop_first()) =~= visible(s.drop_first()));
    }
}

proof fn trim_end_keeps_visible(s: Seq<char>)
    ensures
        visible(trim_end(s)) == visible(s),
    decreases s.len(),
{
    if s.len() > 0 && is_whitespace(s.last()) {
        trim_end_keeps_visible(s.drop_last());
        assert(s =~= s.drop_last() + seq![s.last()]);
        visible_of_both(s.drop_last(), seq![s.last()]);
        visible_of_one(s.last());
        assert(visible(s.drop_last()) + Seq::<char>::empty() =~= visible(s.drop_last()));
    }
}

/// The number that a text of decimal digits denotes.
pub open spec fn digits_value(s: Seq<char>) -> nat
    decreases s.len(),
{
    if s.len() == 0 {
        0
    } else {
        digits_value(s.drop_last()) * 10 + ((s.last() as u32 - '0' as u32) as nat)
    }
}

/// The characters are decimal digits.
pub open spec fn all_digits(s: Seq<char>) -> bool {
    forall|i: int| 0 <= i < s.len() ==> '0' <= #[trigger] s[i] <= '9'
}

/// The number that a text denotes: decimal digits, at least one, with or
/// without a plus sign before them, of a value below two to the power of 64.
pub open spec fn u64_value(s: Seq<char>) -> Option<nat> {
    let digits = if s.len() > 0 && s[0] == '+' {
        s.drop_first()
    } else {
        s
    };
    if digits.len() > 0 && all_digits(digits) && digits_value(digits) <= u64::MAX {
        Some(digits_value(digits))
    } else {
        None
    }
}

proof fn digits_value_grows(s: Seq<char>, i: int)
    requires
        0 <= i <= s.len(),
        all_digits(s),
    ensures
        digits_value(s.take(i)) <= digits_value(s),
    decreases s.len() - i,
{
    if i < s.len() {
        assert(s.take(i + 1).drop_last() =~= s.take(i));
        assert(digits_value(s.take(i + 1)) >= digits_value(s.take(i)));
        digits_value_grows(s, i + 1);
    } else {
        assert(s.take(i) =~= s);
    }
}

/// Reads a number.
pub fn parse_u64(s: &str) -> (r: Option<u64>)
    ensures
        match r {
            Some(n) => u64_value(s@) == Some(n as nat),
            None => u64_value(s@) is None,
        },
{
    let chars: Vec<char> = to_chars(s);
    let start: usize = if chars.len() > 0 && chars[0] == '+' {
        1
    } else {
        0
    };
    let ghost digits = chars@.skip(start as int);
    proof {
        if s@.len() > 0 && s@[0] == '+' {
            assert(digits =~= s@.drop_first());
        } else {
            assert(digits =~= s@);
        }
    }
    if start == chars.len() {
        return None;
    }
    let mut value: u64 = 0;
    let mut i: usize = start;
    proof {
        assert(digits.take(0) =~= Seq::empty());
    }
    while i < chars.len()
        invariant
            start <= i <= chars@.len(),
            digits == chars@.skip(start as int),
            value == digits_value(digits.take(i - start)),
            forall|j: int| 0 <= j < i - start ==> '0' <= #[trigger] digits[j] <= '9',
            digits == (if s@.len() > 0 && s@[0] == '+' {
                s@.drop_first()
            } else {
                s@
            }),
        decreases chars@.len() - i,
    {
        let c: char = chars[i];
        proof {
            assert(digits[i - start] == c);
            assert(digits.take(i - start + 1).drop_last() =~= digits.take(i - start));
        }
        if c < '0' || c > '9' {
            return None;
        }
        let d: u64 = (c as u32 - '0' as u32) as u64;
        match value.checked_mul(10) {
            Some(m) => match m.checked_add(d) {
                Some(n) => {
                    value = n;
                },
                None => {
                    proof {
                        if all_digits(digits) {
                            digits_value_grows(digits, i - start + 1);
                        }
                    }
                    return None;
                },
            },
            None => {
                proof {
                    if all_digits(digits) {
                        digits_value_grows(digits, i - start + 1);
                    }
                }
                return None;
            },
        }
        i += 1;
    }
    proof {
        assert(digits.take(i - start) =~= digits);
    }
    Some(value)
}

/// The value of an optional setting in milliseconds: the number it holds, with
/// whitespace around it ignored, else a default.
pub open spec fn setting_or(value: Option<Seq<char>>, default: u64) -> u64 {
    match value {
        Some(v) => match u64_value(trim(v)) {
            Some(n) => n as u64,
            None => default,
        },
        None => default,
    }
}

/// Reads an optional setting in milliseconds.
pub fn millis_setting(value: &Option<String>, default: u64) -> (r: u64)
    ensures
        r == setting_or(crate::json::opt_view(*value), default),
{
    match value {
        Some(v) => {
            let t: String = trimmed(v.as_str());
            match parse_u64(t.as_str()) {
                Some(n) => n,
                None => default,
            }
        },
        None => default,
    }
}

/// The character of a hexadecimal digit, in lower case.
pub open spec fn hex_char(d: nat) -> char {
    if d < 10 {
        (48 + d) as char
    } else {
        (87 + d) as char
    }
}

/// A number in hexadecimal notation, in lower case and without leading zeros.
pub open spec fn hexadecimal(n: nat) -> Seq<char>
    decreases n,
{
    if n < 16 {
        seq![hex_char(n)]
    } else {
        hexadecimal(n / 16).push(hex_char(n % 16))
    }
}

/// Writes a number in hexadecimal notation.
pub fn hex_text(n: u64) -> (r: String)
    ensures
        r@ == hexadecimal(n as nat),
    decreases n,
{
    let d: u8 = (n % 16) as u8;
    let c: char = if d < 10 {
        (48u8 + d) as char
    } else {
        (87u8 + d) as char
    };
    if n < 16 {
        let mut out: String = String::new();
        out.push(c);
        proof {
            assert(out@ =~= seq![hex_char(n as nat)]);
        }
        out
    } else {
        let mut out: String = hex_text(n / 16);
        out.push(c);
        out
    }
}

/// The number of words of a text: of its longest stretches without whitespace.
pub open spec fn word_count(s: Seq<char>) -> nat
    decreases s.len(),
{
    if s.len() == 0 {
        0
    } else {
        word_count(s.drop_last()) + (if !is_whitespace(s.last()) && (s.len() == 1
            || is_whitespace(s[s.len() - 2])) {
            1nat
        } else {
            0nat
        })
    }
}

/// Counts the words of a text.
pub fn count_words(s: &str) -> (r: usize)
    ensures
        r == word_count(s@),
        r <= s@.len(),
{
    let chars: Vec<char> = to_chars(s);
    let mut n: usize = 0;
    let mut i: usize = 0;
    proof {
        assert(chars@.take(0) =~= Seq::empty());
    }
    while i < chars.len()
        invariant
            i <= chars@.len(),
            n <= i,
            n == word_count(chars@.take(i as int)),
        decreases chars@.len() - i,
    {
        proof {
            let next = chars@.take(i as int + 1);
            assert(next.drop_last() =~= chars@.take(i as int));
            assert(next.last() == chars@[i as int]);
            if i > 0 {
                assert(next[next.len() - 2] == chars@[i as int - 1]);
            }
        }
        if !whitespace(chars[i]) && (i == 0 || whitespace(chars[i - 1])) {
            n += 1;
        }
        i += 1;
    }
    proof {
        assert(chars@.take(i as int) =~= chars@);
    }
    n
}

/// A text with every occurrence of `pattern`, from left to right, replaced by
/// `by`.
pub open spec fn replaced(s: Seq<char>, pattern: Seq<char>, by: Seq<char>) -> Seq<char>
    decreases s.len(),
{
    if pattern.len() == 0 || s.len() == 0 {
        s
    } else if starts_with(s, pattern) {
        by + replaced(s.skip(pattern.len() as int), pattern, by)
    } else {
        seq![s[0]] + replaced(s.drop_first(), pattern, by)
    }
}

/// Replaces every occurrence of a pattern.
pub fn replace_all(s: &str, pattern: &str, by: &str) -> (r: String)
    requires
        pattern@.len() > 0,
    ensures
        r@ == replaced(s@, pattern@, by@),
{
    let chars: Vec<char> = to_chars(s);
    let pat: Vec<char> = to_chars(pattern);
    let mut out: String = String::new();
    let mut i: usize = 0;
    proof {
        assert(chars@.skip(0) =~= chars@);
        assert(Seq::<char>::empty() + replaced(s@, pattern@, by@) =~= replaced(s@, pattern@, by@));
    }
    while i < chars.len()
        invariant
            i <= chars@.len(),
            chars@ == s@,
            pat@ == pattern@,
            pat@.len() > 0,
            out@ + replaced(s@.skip(i as int), pattern@, by@) == replaced(s@, pattern@, by@),
        decreases chars@.len() - i,
    {
        let ghost rest = s@.skip(i as int);
        let ghost before = out@;
        if matches_at(&chars, &pat, i) {
            proof {
                assert(rest.subrange(0, pattern@.len() as int) =~= s@.subrange(
                    i as int,
                    i + pattern@.len(),
                ));
                assert(rest.skip(pattern@.len() as int) =~= s@.skip(i + pattern@.len()));
                assert(before + (by@ + replaced(s@.skip(i + pattern@.len()), pattern@, by@)) =~= (
                before + by@) + replaced(s@.skip(i + pattern@.len()), pattern@, by@));
            }
            out.append(by);
            i = i + pat.len();
        } else {
            proof {
                if starts_with(rest, pattern@) {
                    assert(rest.subrange(0, pattern@.len() as int) =~= s@.subrange(
                        i as int,
                        i + pattern@.len(),
                    ));
                }
                assert(rest.drop_first() =~= s@.skip(i as int + 1));
                assert(before + (seq![rest[0]] + replaced(rest.drop_first(), pattern@, by@)) =~= (
                before.push(rest[0])) + replaced(rest.drop_first(), pattern@, by@));
            }
            out.push(chars[i]);
            i += 1;
        }
    }
    proof {
        assert(s@.skip(i as int) =~= Seq::empty());
        assert(out@ + Seq::<char>::empty() =~= out@);
    }
    out
}

/// Replacing a pattern by itself changes nothing.
pub proof fn replacing_by_itself_changes_nothing(s: Seq<char>, pattern: Seq<char>)
    ensures
        replaced(s, pattern, pattern) == s,
    decreases s.len(),
{
    if pattern.len() > 0 && s.len() > 0 {
        if starts_with(s, pattern) {
            let n = pattern.len() as int;
            replacing_by_itself_changes_nothing(s.skip(n), pattern);
            assert(s =~= s.subrange(0, n) + s.skip(n));
        } else {
            replacing_by_itself_changes_nothing(s.drop_first(), pattern);
            assert(s =~= seq![s[0]] + s.drop_first());
        }
    }
}

/// In a text that does not hold the pattern nothing is replaced.
pub proof fn nothing_is_replaced_without_the_pattern(
    s: Seq<char>,
    pattern: Seq<char>,
    by: Seq<char>,
)
    requires
        !contains(s, pattern),
    ensures
        replaced(s, pattern, by) == s,
    decreases s.len(),
{
    if pattern.len() > 0 && s.len() > 0 {
        assert(!occurs_at(s, pattern, 0));
        let rest = s.drop_first();
        assert forall|i: int| !#[trigger] occurs_at(rest, pattern, i) by {
            if occurs_at(rest, pattern, i) {
                assert(s.subrange(i + 1, i + 1 + pattern.len()) =~= rest.subrange(
                    i,
                    i + pattern.len(),
                ));
                assert(occurs_at(s, pattern, i + 1));
            }
        }
        nothing_is_replaced_without_the_pattern(rest, pattern, by);
        assert(s =~= seq![s[0]] + rest);
    }
}

/// Replacing leaves alone what stands before the first character with which
/// the pattern begins.
pub proof fn replacing_passes_over(
    front: Seq<char>,
    rest: Seq<char>,
    pattern: Seq<char>,
    by: Seq<char>,
)
    requires
        pattern.len() > 0,
        forall|i: int| 0 <= i < front.len() ==> #[trigger] front[i] != pattern[0],
    ensures
        replaced(front + rest, pattern, by) == front + replaced(rest, pattern, by),
    decreases front.len(),
{
    let s = front + rest;
    if front.len() == 0 {
        assert(s =~= rest);
        assert(front + replaced(rest, pattern, by) =~= replaced(rest, pattern, by));
    } else {
        if starts_with(s, pattern) {
            assert(s.subrange(0, pattern.len() as int)[0] == front[0]);
        }
        assert(s.drop_first() =~= front.drop_first() + rest);
        replacing_passes_over(front.drop_first(), rest, pattern, by);
        assert(seq![front[0]] + (front.drop_first() + replaced(rest, pattern, by)) =~= front
            + replaced(rest, pattern, by));
    }
}

/// A pattern that stands at the start is replaced, and replacing goes on after
/// it.
pub proof fn replacing_takes_out(rest: Seq<char>, pattern: Seq<char>, by: Seq<char>)
    requires
        pattern.len() > 0,
    ensures
        replaced(pattern + rest, pattern, by) == by + replaced(rest, pattern, by),
{
    let s = pattern + rest;
    assert(s.subrange(0, pattern.len() as int) =~= pattern);
    assert(s.skip(pattern.len() as int) =~= rest);
}

/// A whole number in decimal notation, with a minus sign where it is negative.
pub open spec fn signed_decimal(n: int) -> Seq<char> {
    if n < 0 {
        "-"@ + decimal((-n) as nat)
    } else {
        decimal(n as nat)
    }
}

/// Writes a whole number in decimal notation.
pub fn signed_text(n: i32) -> (r: String)
    ensures
        r@ == signed_decimal(n as int),
{
    if n < 0 {
        let magnitude: u64 = (-(n as i64)) as u64;
        let mut out: String = "-".to_owned();
        let digits: String = decimal_text(magnitude);
        out.append(digits.as_str());
        out
    } else {
        decimal_text(n as u64)
    }
}

/// A list of strings equal to this one.
pub fn copy_strings(items: &Vec<String>) -> (r: Vec<String>)
    ensures
        views(r@) == views(items@),
{
    let mut out: Vec<String> = Vec::new();
    let mut i: usize = 0;
    while i < items.len()
        invariant
            i <= items@.len(),
            out@.len() == i,
            forall|j: int| 0 <= j < i ==> (#[trigger] out@[j])@ == items@[j]@,
        decreases items@.len() - i,
    {
        out.push(items[i].clone());
        i += 1;
    }
    proof {
        assert(views(out@) =~= views(items@));
    }
    out
}

proof fn trim_start_takes_spaces(s: Seq<char>)
    ensures
        exists|from: int|
            {
                &&& 0 <= from <= s.len()
                &&& trim_start(s) == #[trigger] s.skip(from)
                &&& forall|i: int| 0 <= i < from ==> is_whitespace(#[trigger] s[i])
                &&& from < s.len() ==> !is_whitespace(s[from])
            },
    decreases s.len(),
{
    if s.len() > 0 && is_whitespace(s[0]) {
        let rest = s.drop_first();
        trim_start_takes_spaces(rest);
        let k = choose|from: int|
            {
                &&& 0 <= from <= rest.len()
                &&& trim_start(rest) == #[trigger] rest.skip(from)
                &&& forall|i: int| 0 <= i < from ==> is_whitespace(#[trigger] rest[i])
                &&& from < rest.len() ==> !is_whitespace(rest[from])
            };
        assert(rest.skip(k) =~= s.skip(k + 1));
        assert forall|i: int| 0 <= i < k + 1 implies is_whitespace(#[trigger] s[i]) by {
            if i > 0 {
                assert(rest[i - 1] == s[i]);
            }
        }
        assert(k + 1 < s.len() ==> s[k + 1] == rest[k]);
        assert(trim_start(s) == s.skip(k + 1));
    } else {
        assert(s.skip(0) =~= s);
    }
}

proof fn trim_end_takes_spaces(s: Seq<char>)
    ensures
        exists|to: int|
            {
                &&& 0 <= to <= s.len()
                &&& trim_end(s) == #[trigger] s.take(to)
                &&& forall|i: int| to <= i < s.len() ==> is_whitespace(#[trigger] s[i])
                &&& 0 < to ==> !is_whitespace(s[to - 1])
            },
    decreases s.len(),
{
    if s.len() > 0 && is_whitespace(s.last()) {
        let rest = s.drop_last();
        trim_end_takes_spaces(rest);
        let k = choose|to: int|
            {
                &&& 0 <= to <= rest.len()
                &&& trim_end(rest) == #[trigger] rest.take(to)
                &&& forall|i: int| to <= i < rest.len() ==> is_whitespace(#[trigger] rest[i])
                &&& 0 < to ==> !is_whitespace(rest[to - 1])
            };
        assert(rest.take(k) =~= s.take(k));
        assert forall|i: int| k <= i < s.len() implies is_whitespace(#[trigger] s[i]) by {
            if i < rest.len() {
                assert(rest[i] == s[i]);
            }
        }
        assert(trim_end(s) == s.take(k));
    } else {
        assert(s.take(s.len() as int) =~= s);
    }
}

/// A text is trimmed of the whitespace at both ends and of nothing else: what is
/// left stands in the text as it was, neither begins nor ends with whitespace,
/// and all that was taken is whitespace.
pub proof fn trimming_takes_the_space_at_the_ends(s: Seq<char>)
    ensures
        exists|from: int, to: int|
            {
                &&& 0 <= from <= to <= s.len()
                &&& trim(s) == #[trigger] s.subrange(from, to)
                &&& forall|i: int| 0 <= i < from ==> is_whitespace(#[trigger] s[i])
                &&& forall|i: int| to <= i < s.len() ==> is_whitespace(#[trigger] s[i])
            },
        trim(s).len() > 0 ==> !is_whitespace(trim(s)[0]) && !is_whitespace(trim(s).last()),
{
    trim_start_takes_spaces(s);
    let mid = trim_start(s);
    let from = choose|from: int|
        {
            &&& 0 <= from <= s.len()
            &&& mid == #[trigger] s.skip(from)
            &&& forall|i: int| 0 <= i < from ==> is_whitespace(#[trigger] s[i])
            &&& from < s.len() ==> !is_whitespace(s[from])
        };
    trim_end_takes_spaces(mid);
    let n = choose|to: int|
        {
            &&& 0 <= to <= mid.len()
            &&& trim_end(mid) == #[trigger] mid.take(to)
            &&& forall|i: int| to <= i < mid.len() ==> is_whitespace(#[trigger] mid[i])
            &&& 0 < to ==> !is_whitespace(mid[to - 1])
        };
    assert(mid.take(n) =~= s.subrange(from, from + n));
    assert forall|i: int| from + n <= i < s.len() implies is_whitespace(#[trigger] s[i]) by {
        assert(mid[i - from] == s[i]);
    }
    assert(trim(s) == s.subrange(from, from + n));
    if n > 0 {
        assert(trim(s)[0] == s[from]);
        assert(trim(s).last() == mid[n - 1]);
    }
}

/// Nothing is left of a text exactly where all of it is whitespace.
pub proof fn trimmed_to_nothing(s: Seq<char>)
    ensures
        trim(s).len() == 0 <==> forall|i: int| 0 <= i < s.len() ==> is_whitespace(#[trigger] s[i]),
{
    trimming_takes_the_space_at_the_ends(s);
    let (from, to) = choose|from: int, to: int|
        {
            &&& 0 <= from <= to <= s.len()
            &&& trim(s) == #[trigger] s.subrange(from, to)
            &&& forall|i: int| 0 <= i < from ==> is_whitespace(#[trigger] s[i])
            &&& forall|i: int| to <= i < s.len() ==> is_whitespace(#[trigger] s[i])
        };
    if trim(s).len() > 0 {
        assert(trim(s)[0] == s[from]);
    } else {
        assert forall|i: int| 0 <= i < s.len() implies is_whitespace(#[trigger] s[i]) by {}
    }
}

/// A text stands in another.
pub open spec fn stands_in(text: Seq<char>, part: Seq<char>) -> bool {
    exists|before: Seq<char>, after: Seq<char>| text == #[trigger] (before + part + after)
}

/// Every part stands in what the parts are joined to.
pub proof fn part_stands_in_joined(parts: Seq<Seq<char>>, sep: Seq<char>, i: int)
    requires
        0 <= i < parts.len(),
    ensures
        stands_in(joined(parts, sep), parts[i]),
    decreases parts.len(),
{
    let whole = joined(parts, sep);
    let none = Seq::<char>::empty();
    if parts.len() == 1 {
        assert(whole =~= none + parts[0] + none);
    } else if i == parts.len() - 1 {
        let before = joined(parts.drop_last(), sep) + sep;
        assert(whole =~= before + parts[i] + none);
    } else {
        part_stands_in_joined(parts.drop_last(), sep, i);
        let shorter = joined(parts.drop_last(), sep);
        let (before, after) = choose|before: Seq<char>, after: Seq<char>|
            shorter == #[trigger] (before + parts.drop_last()[i] + after);
        assert(whole =~= before + parts[i] + (after + sep + parts.last()));
    }
}

/// One part joined is the part, and joining some parts and then others is
/// joining all of them, with the separator in between.
pub proof fn joining_goes_on(
    first: Seq<Seq<char>>,
    second: Seq<Seq<char>>,
    part: Seq<char>,
    sep: Seq<char>,
)
    requires
        first.len() > 0,
        second.len() > 0,
    ensures
        joined(seq![part], sep) == part,
        joined(first + second, sep) == joined(first, sep) + sep + joined(second, sep),
    decreases second.len(),
{
    let all = first + second;
    assert(all.drop_last() =~= first + second.drop_last());
    if second.len() == 1 {
        assert(first + second.drop_last() =~= first);
    } else {
        joining_goes_on(first, second.drop_last(), part, sep);
        assert(joined(all, sep) =~= joined(first, sep) + sep + joined(second, sep));
    }
}

/// What stands in a part of a text stands in the text.
pub proof fn standing_in_passes_on(whole: Seq<char>, middle: Seq<char>, part: Seq<char>)
    requires
        stands_in(whole, middle),
        stands_in(middle, part),
    ensures
        stands_in(whole, part),
{
    let (a, b) = choose|a: Seq<char>, b: Seq<char>| whole == #[trigger] (a + middle + b);
    let (c, d) = choose|c: Seq<char>, d: Seq<char>| middle == #[trigger] (c + part + d);
    assert(whole =~= (a + c) + part + (d + b));
}

/// A text stands between what comes before and after it.
pub proof fn the_middle_stands_in(before: Seq<char>, part: Seq<char>, after: Seq<char>)
    ensures
        stands_in(before + part + after, part),
        stands_in(before + part, part),
        stands_in(part + after, part),
        stands_in(part, part),
{
    let none = Seq::<char>::empty();
    assert(before + part =~= before + part + none);
    assert(part + after =~= none + part + after);
    assert(part =~= none + part + none);
}

/// A text that neither begins nor ends with whitespace stays as it is.
pub proof fn nothing_to_trim(s: Seq<char>)
    requires
        s.len() > 0,
        !is_whitespace(s[0]),
        !is_whitespace(s.last()),
    ensures
        trim(s) == s,
{
    assert(trim_start(s) == s);
    assert(trim_end(s) == s);
}

/// The words of two texts with a space between them are those of both.
pub proof fn words_are_counted_on_both_sides(a: Seq<char>, space: char, b: Seq<char>)
    requires
        is_whitespace(space),
    ensures
        word_count(a.push(space) + b) == word_count(a) + word_count(b),
    decreases b.len(),
{
    let whole = a.push(space) + b;
    if b.len() == 0 {
        assert(whole =~= a.push(space));
        assert(whole.drop_last() =~= a);
    } else {
        words_are_counted_on_both_sides(a, space, b.drop_last());
        assert(whole.drop_last() =~= a.push(space) + b.drop_last());
        assert(whole.last() == b.last());
        if b.len() == 1 {
            assert(whole[whole.len() - 2] == space);
        } else {
            assert(whole[whole.len() - 2] == b[b.len() - 2]);
        }
    }
}

/// A text without whitespace is one word, and whitespace is none.
pub proof fn a_word_counts_once(s: Seq<char>)
    ensures
        s.len() > 0 && (forall|i: int| 0 <= i < s.len() ==> !is_whitespace(#[trigger] s[i]))
            ==> word_count(s) == 1,
        (forall|i: int| 0 <= i < s.len() ==> is_whitespace(#[trigger] s[i])) ==> word_count(s) == 0,
    decreases s.len(),
{
    if s.len() > 0 {
        let t = s.drop_last();
        a_word_counts_once(t);
        assert(forall|i: int| 0 <= i < t.len() ==> t[i] == #[trigger] s[i]);
        if forall|i: int| 0 <= i < s.len() ==> is_whitespace(#[trigger] s[i]) {
            assert(forall|i: int| 0 <= i < t.len() ==> is_whitespace(#[trigger] t[i]));
            assert(is_whitespace(s.last()));
        }
        if forall|i: int| 0 <= i < s.len() ==> !is_whitespace(#[trigger] s[i]) {
            assert(forall|i: int| 0 <= i < t.len() ==> !is_whitespace(#[trigger] t[i]));
            if t.len() > 0 {
                assert(!is_whitespace(s[s.len() - 2]));
            } else {
                assert(word_count(t) == 0);
                assert(!is_whitespace(s.last()));
            }
        }
    }
}

/// A number that was written is read back.
pub proof fn a_written_number_is_read_back(n: nat)
    requires
        n <= u64::MAX,
    ensures
        u64_value(decimal(n)) == Some(n),
{
    decimal_has_its_value(n);
    assert(decimal(n)[0] != '+');
}

proof fn decimal_has_its_value(n: nat)
    ensures
        decimal(n).len() > 0,
        all_digits(decimal(n)),
        digits_value(decimal(n)) == n,
        '0' <= decimal(n)[0] <= '9',
    decreases n,
{
    if n < 10 {
        assert(decimal(n).drop_last() =~= Seq::empty());
        assert(digits_value(decimal(n).drop_last()) == 0);
    } else {
        decimal_has_its_value(n / 10);
        assert(decimal(n).drop_last() =~= decimal(n / 10));
        assert(decimal(n)[0] == decimal(n / 10)[0]);
    }
}

/// A number below zero is written with a minus sign before it.
pub proof fn a_minus_sign_is_written(n: nat)
    ensures
        signed_decimal(n as int) == decimal(n),
        n > 0 ==> signed_decimal(-(n as int)) == seq!['-'] + decimal(n),
{
    reveal_strlit("-");
    assert("-"@ =~= seq!['-']);
}

/// A setting counts where it is a number, with or without space around it; else
/// the default does.
pub proof fn a_setting_counts_where_it_is_a_number(n: u64, default: u64)
    ensures
        setting_or(Some(decimal(n as nat)), default) == n,
        setting_or(None, default) == default,
        setting_or(Some(Seq::empty()), default) == default,
{
    decimal_has_its_value(n as nat);
    let written = decimal(n as nat);
    assert('0' <= written.last() <= '9');
    nothing_to_trim(written);
    a_written_number_is_read_back(n as nat);
    trimmed_to_nothing(Seq::<char>::empty());
}

} // verus!
