//! Text helpers shared by the rest of the library: decimal rendering,
//! comparison, trimming, line splitting and UTF-8 decoding, each stated over
//! `Seq<char>`.

use vstd::prelude::*;
use vstd::string::*;
use vstd::utf8::*;

verus! {

/// `String::push` appends exactly one character to the end of the string.
pub assume_specification[ String::push ](s: &mut String, ch: char)
    ensures
        final(s)@ == old(s)@.push(ch),
;

/// The character that stands for a single decimal digit.
pub open spec fn digit_char(d: nat) -> char
    recommends
        d < 10,
{
    if d == 0 {
        '0'
    } else if d == 1 {
        '1'
    } else if d == 2 {
        '2'
    } else if d == 3 {
        '3'
    } else if d == 4 {
        '4'
    } else if d == 5 {
        '5'
    } else if d == 6 {
        '6'
    } else if d == 7 {
        '7'
    } else if d == 8 {
        '8'
    } else {
        '9'
    }
}

/// The decimal rendering of a natural number, without sign or padding.
pub open spec fn decimal_text(n: nat) -> Seq<char>
    decreases n,
{
    if n < 10 {
        seq![digit_char(n)]
    } else {
        decimal_text(n / 10).push(digit_char(n % 10))
    }
}

/// The decimal rendering of an integer: a minus sign before the magnitude
/// of a negative number.
pub open spec fn signed_decimal_text(n: int) -> Seq<char> {
    if n < 0 {
        seq!['-'] + decimal_text((-n) as nat)
    } else {
        decimal_text(n as nat)
    }
}

/// The decimal rendering padded with one leading zero to at least two
/// digits.
pub open spec fn two_digit_text(n: nat) -> Seq<char> {
    if n < 10 {
        seq!['0', digit_char(n)]
    } else {
        decimal_text(n)
    }
}

fn digit_of(d: u64) -> (c: char)
    requires
        d < 10,
    ensures
        c == digit_char(d as nat),
{
    if d == 0 {
        '0'
    } else if d == 1 {
        '1'
    } else if d == 2 {
        '2'
    } else if d == 3 {
        '3'
    } else if d == 4 {
        '4'
    } else if d == 5 {
        '5'
    } else if d == 6 {
        '6'
    } else if d == 7 {
        '7'
    } else if d == 8 {
        '8'
    } else {
        '9'
    }
}

/// Appends the decimal rendering of `n` to `out`.
pub fn push_decimal(out: &mut String, n: u64)
    ensures
        final(out)@ == old(out)@ + decimal_text(n as nat),
    decreases n,
{
    if n >= 10 {
        push_decimal(out, n / 10);
    }
    out.push(digit_of(n % 10));
}

/// Appends the decimal rendering of a signed number to `out`.
pub fn push_signed_decimal(out: &mut String, n: i64)
    ensures
        final(out)@ == old(out)@ + signed_decimal_text(n as int),
{
    if n < 0 {
        out.push('-');
        let magnitude: u64 = if n == i64::MIN {
            0x8000_0000_0000_0000u64
        } else {
            (-n) as u64
        };
        push_decimal(out, magnitude);
        assert(final(out)@ =~= old(out)@ + signed_decimal_text(n as int));
    } else {
        push_decimal(out, n as u64);
    }
}

/// Appends `n` in at least two decimal digits to `out`.
pub fn push_two_digits(out: &mut String, n: u64)
    ensures
        final(out)@ == old(out)@ + two_digit_text(n as nat),
{
    if n < 10 {
        out.push('0');
        out.push(digit_of(n));
        assert(final(out)@ =~= old(out)@ + two_digit_text(n as nat));
    } else {
        push_decimal(out, n);
    }
}

/// The decimal rendering of `n` as a string of its own.
pub fn decimal_string(n: u64) -> (r: String)
    ensures
        r@ == decimal_text(n as nat),
{
    let mut out = String::new();
    push_decimal(&mut out, n);
    assert(out@ =~= decimal_text(n as nat));
    out
}

/// Tells whether two pieces of text hold the same characters.
pub fn text_equal(a: &str, b: &str) -> (r: bool)
    ensures
        r == (a@ == b@),
{
    let x = String::from_str(a);
    let y = String::from_str(b);
    x == y
}

/// Copies the characters of `s` into a vector.
pub fn chars_of(s: &str) -> (v: Vec<char>)
    ensures
        v@ == s@,
{
    let mut v: Vec<char> = Vec::new();
    for c in it: s.chars()
        invariant
            it.seq() == s@,
            v@ == s@.take(it.index() as int),
    {
        v.push(c);
    }
    v
}

/// Builds a string from the characters of `v` between `from` and `to`.
pub fn string_from_chars(v: &Vec<char>, from: usize, to: usize) -> (r: String)
    requires
        from <= to <= v.len(),
    ensures
        r@ == v@.subrange(from as int, to as int),
{
    let mut out = String::new();
    let mut i: usize = from;
    while i < to
        invariant
            from <= i <= to <= v.len(),
            out@ == v@.subrange(from as int, i as int),
        decreases to - i,
    {
        out.push(v[i]);
        i = i + 1;
        assert(out@ =~= v@.subrange(from as int, i as int));
    }
    out
}

/// Appends a copy of each string of `items` to `out`, in order.
pub fn append_strings(out: &mut Vec<String>, items: &Vec<String>)
    ensures
        final(out).deep_view() == old(out).deep_view() + items.deep_view(),
{
    let mut i: usize = 0;
    assert(out.deep_view() =~= old(out).deep_view() + items.deep_view().take(0));
    while i < items.len()
        invariant
            i <= items.len(),
            out.deep_view() == old(out).deep_view() + items.deep_view().take(i as int),
        decreases items.len() - i,
    {
        let ghost before = out.deep_view();
        let item = items[i].clone();
        out.push(item);
        assert(out.deep_view() =~= before.push(items@[i as int]@));
        i = i + 1;
        assert(out.deep_view() =~= old(out).deep_view() + items.deep_view().take(i as int));
    }
    assert(items.deep_view().take(items.len() as int) =~= items.deep_view());
}

/// `s` without the run of `c` that ends it.
pub open spec fn strip_trailing(s: Seq<char>, c: char) -> Seq<char>
    decreases s.len(),
{
    if s.len() > 0 && s.last() == c {
        strip_trailing(s.drop_last(), c)
    } else {
        s
    }
}

/// A prefix of `s` that is followed only by `c` and does not itself end in
/// `c` is `s` with its trailing run of `c` removed.
pub proof fn lemma_strip_trailing_is_prefix(s: Seq<char>, c: char, end: int)
    requires
        0 <= end <= s.len(),
        forall|i: int| end <= i < s.len() ==> s[i] == c,
        end == 0 || s[end - 1] != c,
    ensures
        strip_trailing(s, c) == s.take(end),
    decreases s.len() - end,
{
    if end == s.len() {
        assert(s.take(end) =~= s);
    } else {
        lemma_strip_trailing_is_prefix(s.drop_last(), c, end);
        assert(s.drop_last().take(end) =~= s.take(end));
    }
}

/// Removes every line feed that ends `s`.
pub fn trim_trailing_newlines(s: &str) -> (r: String)
    ensures
        r@ == strip_trailing(s@, '\n'),
{
    let v = chars_of(s);
    let mut end: usize = v.len();
    while end > 0 && v[end - 1] == '\n'
        invariant
            end <= v.len(),
            forall|i: int| end <= i < v.len() ==> v@[i] == '\n',
        decreases end,
    {
        end = end - 1;
    }
    proof {
        lemma_strip_trailing_is_prefix(v@, '\n', end as int);
    }
    string_from_chars(&v, 0, end)
}

/// A line without the carriage return that preceded its line feed.
pub open spec fn without_carriage_return(line: Seq<char>) -> Seq<char> {
    if line.len() > 0 && line.last() == '\r' {
        line.drop_last()
    } else {
        line
    }
}

/// The sequence that holds `line` if it has any character, and nothing
/// otherwise.
pub open spec fn kept_line(line: Seq<char>) -> Seq<Seq<char>> {
    if line.len() > 0 {
        seq![line]
    } else {
        seq![]
    }
}

/// The non-empty lines of `s` from position `i` on, where `current` holds
/// the characters of the line that position `i` continues. A line ends at a
/// line feed, or at a carriage return directly before one; the last line
/// needs no line feed.
pub open spec fn non_empty_lines_from(s: Seq<char>, i: int, current: Seq<char>) -> Seq<Seq<char>>
    decreases s.len() - i,
{
    if i < 0 || i >= s.len() {
        kept_line(current)
    } else if s[i] == '\n' {
        kept_line(without_carriage_return(current)) + non_empty_lines_from(s, i + 1, seq![])
    } else {
        non_empty_lines_from(s, i + 1, current.push(s[i]))
    }
}

/// The non-empty lines of `s`, in order, without their line endings.
pub open spec fn non_empty_lines_of(s: Seq<char>) -> Seq<Seq<char>> {
    non_empty_lines_from(s, 0, seq![])
}

/// Splits `text` into its lines and keeps those that hold a character.
pub fn non_empty_lines(text: &str) -> (lines: Vec<String>)
    ensures
        lines.deep_view() == non_empty_lines_of(text@),
{
    let mut lines: Vec<String> = Vec::new();
    let mut current: Vec<char> = Vec::new();
    assert(lines.deep_view() =~= Seq::<Seq<char>>::empty());
    for c in it: text.chars()
        invariant
            it.seq() == text@,
            non_empty_lines_of(text@) == lines.deep_view() + non_empty_lines_from(
                text@,
                it.index() as int,
                current@,
            ),
    {
        let ghost before = lines.deep_view();
        if c == '\n' {
            let len = current.len();
            let end = if len > 0 && current[len - 1] == '\r' {
                len - 1
            } else {
                len
            };
            assert(current@.subrange(0, end as int) =~= without_carriage_return(current@));
            if end > 0 {
                let line = string_from_chars(&current, 0, end);
                lines.push(line);
            }
            assert(lines.deep_view() =~= before + kept_line(without_carriage_return(current@)));
            current = Vec::new();
            assert(current@ =~= Seq::<char>::empty());
        } else {
            current.push(c);
        }
    }
    let ghost before = lines.deep_view();
    let len = current.len();
    if len > 0 {
        let line = string_from_chars(&current, 0, len);
        assert(current@.subrange(0, len as int) =~= current@);
        lines.push(line);
    }
    assert(lines.deep_view() =~= before + kept_line(current@));
    lines
}

/// What `String::from_utf8_lossy` makes of a byte string: its text where
/// the bytes are UTF-8, and otherwise that text with a replacement character
/// for each malformed sequence.
pub uninterp spec fn utf8_lossy_text(bytes: Seq<u8>) -> Seq<char>;

/// Calls `String::from_utf8_lossy`. The result is a function of the bytes
/// alone; for well-formed UTF-8 it is the text that the bytes encode.
#[verifier::external_body]
fn utf8_lossy(bytes: &[u8]) -> (r: String)
    ensures
        r@ == utf8_lossy_text(bytes@),
        valid_utf8(bytes@) ==> r@ == decode_utf8(bytes@),
{
    String::from_utf8_lossy(bytes).into_owned()
}

/// Calls `String::from_utf8`, which accepts exactly the well-formed UTF-8
/// byte strings and then yields the text that they encode.
#[verifier::external_body]
pub(crate) fn utf8_strict(bytes: &[u8]) -> (r: Option<String>)
    ensures
        r is Some <==> valid_utf8(bytes@),
        r is Some ==> r->0@ == decode_utf8(bytes@),
{
    String::from_utf8(bytes.to_vec()).ok()
}

/// Decodes bytes as text, putting a replacement character in place of each
/// malformed sequence. Text that was encoded as UTF-8 comes back unchanged.
pub fn lossy_text(bytes: &[u8]) -> (r: String)
    ensures
        r@ == utf8_lossy_text(bytes@),
        forall|text: Seq<char>| bytes@ == encode_utf8(text) ==> r@ == text,
{
    let r = utf8_lossy(bytes);
    assert forall|text: Seq<char>| bytes@ == encode_utf8(text) implies r@ == text by {
        encode_utf8_valid_utf8(text);
        encode_utf8_decode_utf8(text);
    }
    r
}

} // verus!
