//! What the routes read from a request's query string.

use crate::text::{chars_of, string_from_chars, text_equal};
use vstd::prelude::*;
use vstd::string::*;

verus! {

/// What percent-decoding makes of a text: each `%` followed by two
/// hexadecimal digits becomes the byte they name, and the bytes are then
/// read as UTF-8 with a replacement character for each malformed sequence.
pub uninterp spec fn percent_decoded_text(text: Seq<char>) -> Seq<char>;

/// Calls `percent_encoding::percent_decode_str` and, on what it returns,
/// `decode_utf8_lossy`. The result is a function of the text alone.
#[verifier::external_body]
fn percent_decode_lossy(text: &str) -> (r: String)
    ensures
        r@ == percent_decoded_text(text@),
{
    percent_encoding::percent_decode_str(text).decode_utf8_lossy().into_owned()
}

/// The pairs of name and value that a query string in the form syntax of
/// the web (`a=1&b=2`) holds, in their order, each name and value decoded.
pub uninterp spec fn form_pairs_of(query: Seq<char>) -> Seq<(Seq<char>, Seq<char>)>;

/// Calls `url::form_urlencoded::parse` on the bytes of the query and
/// collects the pairs it yields, in their order. The result is a function
/// of the query alone.
#[verifier::external_body]
fn form_pairs(query: &str) -> (r: Vec<(String, String)>)
    ensures
        r.deep_view() == form_pairs_of(query@),
{
    url::form_urlencoded::parse(query.as_bytes()).into_owned().collect()
}

/// The first position at or after `from` where `s` holds `c`, or the
/// length of `s` if there is none.
pub open spec fn position_of(s: Seq<char>, c: char, from: int) -> int
    decreases s.len() - from,
{
    if from < 0 || from >= s.len() {
        s.len() as int
    } else if s[from] == c {
        from
    } else {
        position_of(s, c, from + 1)
    }
}

/// `position_of` finds a position between `from` and the end, and `c`
/// occurs nowhere between `from` and that position.
pub proof fn lemma_position_of(s: Seq<char>, c: char, from: int)
    requires
        0 <= from <= s.len(),
    ensures
        from <= position_of(s, c, from) <= s.len(),
        position_of(s, c, from) < s.len() ==> s[position_of(s, c, from)] == c,
        forall|i: int| from <= i < position_of(s, c, from) ==> s[i] != c,
    decreases s.len() - from,
{
    if from < s.len() && s[from] != c {
        lemma_position_of(s, c, from + 1);
    }
}

/// Finds the first position at or after `from` where `v` holds `c`.
pub fn find_char(v: &Vec<char>, c: char, from: usize) -> (r: usize)
    requires
        from <= v.len(),
    ensures
        r == position_of(v@, c, from as int),
        from <= r <= v.len(),
{
    let mut i: usize = from;
    while i < v.len() && v[i] != c
        invariant
            from <= i <= v.len(),
            position_of(v@, c, from as int) == position_of(v@, c, i as int),
        decreases v.len() - i,
    {
        i = i + 1;
    }
    proof {
        lemma_position_of(v@, c, i as int);
    }
    i
}

/// The parameters of a query string from position `from` on, as pairs of
/// name and value, still encoded. Parameters are separated by `&`; the
/// name of a parameter ends at its first `=` and the value is what
/// follows. A parameter without `=` has no value and is left out.
pub open spec fn raw_pairs_from(query: Seq<char>, from: int) -> Seq<(Seq<char>, Seq<char>)>
    decreases query.len() - from,
{
    if from < 0 || from >= query.len() {
        Seq::<(Seq<char>, Seq<char>)>::empty()
    } else {
        let end = position_of(query, '&', from);
        let eq = position_of(query, '=', from);
        let rest = if from <= end < query.len() {
            raw_pairs_from(query, end + 1)
        } else {
            Seq::<(Seq<char>, Seq<char>)>::empty()
        };
        if eq < end {
            seq![(query.subrange(from, eq), query.subrange(eq + 1, end))] + rest
        } else {
            rest
        }
    }
}

/// The parameters of a query string that have a value, in their order,
/// still encoded.
pub open spec fn raw_pairs_of(query: Seq<char>) -> Seq<(Seq<char>, Seq<char>)> {
    raw_pairs_from(query, 0)
}

/// Splits a query string into its parameters that have a value.
pub fn raw_pairs(query: &str) -> (r: Vec<(String, String)>)
    ensures
        r.deep_view() == raw_pairs_of(query@),
{
    let v = chars_of(query);
    let mut out: Vec<(String, String)> = Vec::new();
    let mut from: usize = 0;
    assert(out.deep_view() =~= Seq::<(Seq<char>, Seq<char>)>::empty());
    while from < v.len()
        invariant
            from <= v.len(),
            raw_pairs_from(v@, 0) == out.deep_view() + raw_pairs_from(v@, from as int),
        decreases v.len() - from,
    {
        let ghost before = out.deep_view();
        let end = find_char(&v, '&', from);
        let eq = find_char(&v, '=', from);
        if eq < end {
            let name = string_from_chars(&v, from, eq);
            let value = string_from_chars(&v, eq + 1, end);
            out.push((name, value));
            assert(out.deep_view() =~= before.push(
                (v@.subrange(from as int, eq as int), v@.subrange(eq + 1, end as int)),
            ));
        }
        let next = if end < v.len() {
            end + 1
        } else {
            end
        };
        assert(out.deep_view() + raw_pairs_from(v@, next as int) =~= before + raw_pairs_from(
            v@,
            from as int,
        ));
        from = next;
    }
    assert(out.deep_view() + raw_pairs_from(v@, from as int) =~= out.deep_view());
    out
}

/// The value of the last pair named `name`, if there is such a pair: where
/// a name occurs more than once, the last occurrence counts.
pub open spec fn last_value_of(pairs: Seq<(Seq<char>, Seq<char>)>, name: Seq<char>) -> Option<
    Seq<char>,
>
    decreases pairs.len(),
{
    if pairs.len() == 0 {
        None
    } else if pairs.last().0 == name {
        Some(pairs.last().1)
    } else {
        last_value_of(pairs.drop_last(), name)
    }
}

/// Finds the value of the last pair named `name`.
pub fn last_value(pairs: &Vec<(String, String)>, name: &str) -> (r: Option<String>)
    ensures
        r.deep_view() == last_value_of(pairs.deep_view(), name@),
{
    let mut i: usize = pairs.len();
    assert(pairs.deep_view().take(i as int) =~= pairs.deep_view());
    while i > 0
        invariant
            i <= pairs.len(),
            last_value_of(pairs.deep_view(), name@) == last_value_of(
                pairs.deep_view().take(i as int),
                name@,
            ),
        decreases i,
    {
        let ghost prefix = pairs.deep_view().take(i as int);
        assert(prefix.last() == pairs.deep_view()[i - 1]);
        assert(prefix.drop_last() =~= pairs.deep_view().take(i - 1));
        if text_equal(pairs[i - 1].0.as_str(), name) {
            return Some(pairs[i - 1].1.clone());
        }
        i = i - 1;
    }
    assert(pairs.deep_view().take(0).len() == 0);
    None
}

/// The note id that a query string names: the value of its `id`
/// parameter, percent-decoded. Where the parameter occurs more than once,
/// the last occurrence counts. A request without a query string, or with
/// one that holds no `id` parameter with a value, names none.
pub open spec fn note_id_text(query: Option<Seq<char>>) -> Option<Seq<char>> {
    match query {
        Some(q) => match last_value_of(raw_pairs_of(q), "id"@) {
            Some(raw) => Some(percent_decoded_text(raw)),
            None => None,
        },
        None => None,
    }
}

/// The note id that the query string of a request names.
pub fn note_id_from_query(query: &Option<String>) -> (r: Option<String>)
    ensures
        r.deep_view() == note_id_text(query.deep_view()),
{
    match query {
        Some(q) => {
            let pairs = raw_pairs(q.as_str());
            match last_value(&pairs, "id") {
                Some(raw) => Some(percent_decode_lossy(raw.as_str())),
                None => None,
            }
        },
        None => None,
    }
}

/// The text that a query string asks to search for: the value of its last
/// `search` parameter as the form syntax decodes it, percent-decoded once
/// more. A request without a query string is read as one with an empty
/// query string.
pub open spec fn search_term_text(query: Option<Seq<char>>) -> Option<Seq<char>> {
    let q = match query {
        Some(q) => q,
        None => Seq::<char>::empty(),
    };
    match last_value_of(form_pairs_of(q), "search"@) {
        Some(value) => Some(percent_decoded_text(value)),
        None => None,
    }
}

/// The text to search for, taken from the pairs of a query string.
pub fn search_term_from_pairs(pairs: &Vec<(String, String)>) -> (r: Option<String>)
    ensures
        r.deep_view() == match last_value_of(pairs.deep_view(), "search"@) {
            Some(value) => Some(percent_decoded_text(value)),
            None => None,
        },
{
    match last_value(pairs, "search") {
        Some(value) => Some(percent_decode_lossy(value.as_str())),
        None => None,
    }
}

/// The text that the query string of a request asks to search for.
pub fn search_term_from_query(query: &Option<String>) -> (r: Option<String>)
    ensures
        r.deep_view() == search_term_text(query.deep_view()),
{
    let pairs = match query {
        Some(q) => form_pairs(q.as_str()),
        None => {
            let empty = String::new();
            form_pairs(empty.as_str())
        },
    };
    search_term_from_pairs(&pairs)
}

} // verus!
