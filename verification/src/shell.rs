//! Text that is handed to PowerShell inside a script.
//!
//! A text that comes from a request is never pasted into a script as it
//! is. It stands there as a single-quoted literal, in which PowerShell
//! reads every character as itself but the single quotes, and a doubled
//! single quote as one. PowerShell takes five characters for a single
//! quote: the straight one and four typographic ones.

use vstd::prelude::*;
use vstd::string::*;

verus! {

/// The characters that PowerShell reads as a single quote.
pub open spec fn is_single_quote(c: char) -> bool {
    c == '\'' || c == '\u{2018}' || c == '\u{2019}' || c == '\u{201a}' || c == '\u{201b}'
}

/// A character as it stands inside a single-quoted literal: a single quote
/// twice, any other character once.
pub open spec fn quoted_char(c: char) -> Seq<char> {
    if is_single_quote(c) {
        seq![c, c]
    } else {
        seq![c]
    }
}

/// A text as it stands between the quotes of a single-quoted literal.
pub open spec fn literal_body_text(text: Seq<char>) -> Seq<char>
    decreases text.len(),
{
    if text.len() == 0 {
        Seq::<char>::empty()
    } else {
        literal_body_text(text.drop_last()) + quoted_char(text.last())
    }
}

/// A text as a single-quoted literal.
pub open spec fn literal_text(text: Seq<char>) -> Seq<char> {
    seq!['\''] + literal_body_text(text) + seq!['\'']
}

/// What PowerShell reads from the inside of a single-quoted literal that
/// goes on at position `i` of `script`, with `read` read so far: the text
/// of the literal and the position after the quote that closes it, or
/// `None` if the script ends before the literal does.
pub open spec fn read_literal_body(script: Seq<char>, i: int, read: Seq<char>) -> Option<
    (Seq<char>, int),
>
    decreases script.len() - i,
{
    if i < 0 || i >= script.len() {
        None
    } else if is_single_quote(script[i]) {
        if i + 1 < script.len() && is_single_quote(script[i + 1]) {
            read_literal_body(script, i + 2, read.push(script[i + 1]))
        } else {
            Some((read, i + 1))
        }
    } else {
        read_literal_body(script, i + 1, read.push(script[i]))
    }
}

/// What PowerShell reads from a single-quoted literal that begins at
/// position `from` of `script`.
pub open spec fn read_literal(script: Seq<char>, from: int) -> Option<(Seq<char>, int)> {
    if 0 <= from < script.len() && is_single_quote(script[from]) {
        read_literal_body(script, from + 1, Seq::<char>::empty())
    } else {
        None
    }
}

/// The body of a literal begins with its first character, quoted.
pub proof fn lemma_literal_body_unfolds(text: Seq<char>)
    requires
        text.len() > 0,
    ensures
        literal_body_text(text) == quoted_char(text[0]) + literal_body_text(text.drop_first()),
    decreases text.len(),
{
    if text.len() == 1 {
        assert(text.drop_last().len() == 0);
        assert(text.drop_first().len() == 0);
        assert(literal_body_text(text.drop_last()) =~= Seq::<char>::empty());
        assert(literal_body_text(text.drop_first()) =~= Seq::<char>::empty());
        assert(text.last() == text[0]);
        assert(literal_body_text(text) =~= quoted_char(text[0]));
        assert(quoted_char(text[0]) + literal_body_text(text.drop_first()) =~= quoted_char(
            text[0],
        ));
    } else {
        lemma_literal_body_unfolds(text.drop_last());
        assert(text.drop_last().drop_first() =~= text.drop_first().drop_last());
        assert(text.drop_last()[0] == text[0]);
        assert(text.drop_first().last() == text.last());
        assert(literal_body_text(text) =~= quoted_char(text[0]) + literal_body_text(
            text.drop_first(),
        ));
    }
}

/// Reading the body of a literal gives the text back and stops after the
/// closing quote, whatever stands before the literal and whatever follows
/// it, as long as no single quote follows it directly.
pub proof fn lemma_literal_body_reads_back(
    before: Seq<char>,
    text: Seq<char>,
    after: Seq<char>,
    read: Seq<char>,
)
    requires
        after.len() == 0 || !is_single_quote(after[0]),
    ensures
        read_literal_body(
            before + literal_body_text(text) + seq!['\''] + after,
            before.len() as int,
            read,
        ) == Some((read + text, (before.len() + literal_body_text(text).len() + 1) as int)),
    decreases text.len(),
{
    let script = before + literal_body_text(text) + seq!['\''] + after;
    let i = before.len() as int;
    if text.len() == 0 {
        assert(script[i] == '\'');
        if after.len() > 0 {
            assert(script[i + 1] == after[0]);
        }
        assert(read + text =~= read);
    } else {
        lemma_literal_body_unfolds(text);
        let c = text[0];
        let rest = text.drop_first();
        let next = before + quoted_char(c);
        assert(script =~= next + literal_body_text(rest) + seq!['\''] + after);
        lemma_literal_body_reads_back(next, rest, after, read.push(c));
        assert(read.push(c) + rest =~= read + text);
        assert(script[i] == c);
        if is_single_quote(c) {
            assert(script[i + 1] == c);
        }
    }
}

/// A text that stands in a script as a single-quoted literal is read back
/// as that very text, and the literal ends where it was meant to end: no
/// character of the text closes the literal or is read as anything but
/// itself.
pub proof fn lemma_literal_reads_back(before: Seq<char>, text: Seq<char>, after: Seq<char>)
    requires
        after.len() == 0 || !is_single_quote(after[0]),
    ensures
        read_literal(before + literal_text(text) + after, before.len() as int) == Some(
            (text, (before.len() + literal_text(text).len()) as int),
        ),
{
    let script = before + literal_text(text) + after;
    let opened = before + seq!['\''];
    assert(script =~= opened + literal_body_text(text) + seq!['\''] + after);
    assert(script[before.len() as int] == '\'');
    lemma_literal_body_reads_back(opened, text, after, Seq::<char>::empty());
    assert(Seq::<char>::empty() + text =~= text);
}

/// Tells whether PowerShell reads `c` as a single quote.
pub fn single_quote(c: char) -> (r: bool)
    ensures
        r == is_single_quote(c),
{
    c == '\'' || c == '\u{2018}' || c == '\u{2019}' || c == '\u{201a}' || c == '\u{201b}'
}

/// Appends `text` to `out` as a single-quoted literal.
pub fn push_literal(out: &mut String, text: &str)
    ensures
        final(out)@ == old(out)@ + literal_text(text@),
{
    out.push('\'');
    let ghost opened = out@;
    for c in it: text.chars()
        invariant
            it.seq() == text@,
            out@ == opened + literal_body_text(text@.take(it.index() as int)),
    {
        let ghost done = text@.take(it.index() as int);
        let ghost more = text@.take(it.index() + 1);
        assert(more.drop_last() =~= done);
        assert(more.last() == c);
        if single_quote(c) {
            out.push(c);
        }
        out.push(c);
        assert(out@ =~= opened + literal_body_text(more));
    }
    assert(text@.take(text@.len() as int) =~= text@);
    out.push('\'');
    assert(out@ =~= old(out)@ + literal_text(text@));
}

/// `text` as a single-quoted literal.
pub fn literal(text: &str) -> (r: String)
    ensures
        r@ == literal_text(text@),
{
    let mut out = String::new();
    push_literal(&mut out, text);
    assert(out@ =~= literal_text(text@));
    out
}

} // verus!
