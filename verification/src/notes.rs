//! Notes: where the file of a note lies, the index that remembers it, and
//! the JSON form in which a note travels.

use crate::dates::{dated_dir_on, dated_dir_text, join_path, join_text, CalendarDate};
use crate::effects::ServiceError;
use vstd::hash_map::StringHashMap;
use vstd::prelude::*;
use vstd::string::*;

verus! {

/// The characters that a file name may not hold: `< > : " / \ | ? *` and
/// the line feed.
pub open spec fn is_unsafe_in_file_name(c: char) -> bool {
    c == '<' || c == '>' || c == ':' || c == '"' || c == '/' || c == '\\' || c == '|' || c == '?'
        || c == '*' || c == '\n'
}

/// `_` in place of a character that a file name may not hold, and any other
/// character as it is.
pub open spec fn sanitized_char(c: char) -> char {
    if is_unsafe_in_file_name(c) {
        '_'
    } else {
        c
    }
}

/// A note id with each character that a file name may not hold replaced by
/// `_`.
pub open spec fn sanitized_text(id: Seq<char>) -> Seq<char> {
    Seq::new(id.len(), |i: int| sanitized_char(id[i]))
}

/// The name of a note's file: the sanitized id and the extension `.txt`.
pub open spec fn note_file_name_text(id: Seq<char>) -> Seq<char> {
    sanitized_text(id) + ".txt"@
}

/// The path of the file of a note first seen on `date`, under `notes_dir`.
pub open spec fn note_path_text(notes_dir: Seq<char>, date: CalendarDate, id: Seq<char>) -> Seq<
    char,
> {
    join_text(dated_dir_text(notes_dir, date), note_file_name_text(id))
}

/// Tells whether a file name may not hold `c`.
pub fn unsafe_in_file_name(c: char) -> (r: bool)
    ensures
        r == is_unsafe_in_file_name(c),
{
    c == '<' || c == '>' || c == ':' || c == '"' || c == '/' || c == '\\' || c == '|' || c == '?'
        || c == '*' || c == '\n'
}

/// Replaces each character of `id` that a file name may not hold by `_`.
pub fn sanitize_id(id: &str) -> (r: String)
    ensures
        r@ == sanitized_text(id@),
{
    let mut out = String::new();
    for c in it: id.chars()
        invariant
            it.seq() == id@,
            out@ == sanitized_text(id@.take(it.index() as int)),
    {
        if unsafe_in_file_name(c) {
            out.push('_');
        } else {
            out.push(c);
        }
        assert(out@ =~= sanitized_text(id@.take(it.index() + 1)));
    }
    assert(id@.take(id@.len() as int) =~= id@);
    out
}

/// The path of the file of the note `id`, first seen on `date`, under
/// `notes_dir`.
pub fn note_path(notes_dir: &str, date: &CalendarDate, id: &str) -> (r: String)
    ensures
        r@ == note_path_text(notes_dir@, *date, id@),
{
    let dir = dated_dir_on(notes_dir, date);
    let mut name = sanitize_id(id);
    name.append(".txt");
    join_path(dir.as_str(), name.as_str())
}

/// A sanitized id is as long as the id and holds no character that a file
/// name may not hold.
pub proof fn lemma_sanitized_is_safe(id: Seq<char>)
    ensures
        sanitized_text(id).len() == id.len(),
        forall|i: int|
            0 <= i < id.len() ==> !is_unsafe_in_file_name(#[trigger] sanitized_text(id)[i]),
{
}

/// Sanitizing leaves a sanitized id as it is.
pub proof fn lemma_sanitize_is_idempotent(id: Seq<char>)
    ensures
        sanitized_text(sanitized_text(id)) == sanitized_text(id),
{
    assert(sanitized_text(sanitized_text(id)) =~= sanitized_text(id));
}

/// An id that holds no character that a file name may not hold is its own
/// sanitized form.
pub proof fn lemma_safe_id_is_kept(id: Seq<char>)
    requires
        forall|i: int| 0 <= i < id.len() ==> !is_unsafe_in_file_name(#[trigger] id[i]),
    ensures
        sanitized_text(id) == id,
{
    assert(sanitized_text(id) =~= id);
}

/// The part of a note's path that stands before the file name: the dated
/// directory and the `/` that follows it.
pub open spec fn note_dir_prefix(notes_dir: Seq<char>, date: CalendarDate) -> Seq<char> {
    let dir = dated_dir_text(notes_dir, date);
    if dir.len() == 0 || dir.last() == '/' {
        dir
    } else {
        dir + seq!['/']
    }
}

/// A note's file name holds no `/`, so it is the last component of the
/// note's path.
pub proof fn lemma_file_name_has_no_separator(id: Seq<char>)
    ensures
        forall|i: int|
            0 <= i < note_file_name_text(id).len() ==> #[trigger] note_file_name_text(id)[i]
                != '/',
        note_file_name_text(id).len() == id.len() + 4,
{
    reveal_strlit(".txt");
    let name = note_file_name_text(id);
    assert(".txt"@.len() == 4);
    assert forall|i: int| 0 <= i < name.len() implies #[trigger] name[i] != '/' by {
        if i < id.len() {
            assert(name[i] == sanitized_text(id)[i]);
        } else {
            assert(name[i] == ".txt"@[i - id.len()]);
        }
    }
}

/// Two ids whose sanitized forms differ never get the same file, whatever
/// the directories and the dates they were first seen with.
pub proof fn lemma_distinct_names_get_distinct_paths(
    dir_a: Seq<char>,
    date_a: CalendarDate,
    a: Seq<char>,
    dir_b: Seq<char>,
    date_b: CalendarDate,
    b: Seq<char>,
)
    requires
        sanitized_text(a) != sanitized_text(b),
    ensures
        note_path_text(dir_a, date_a, a) != note_path_text(dir_b, date_b, b),
{
    let xa = note_dir_prefix(dir_a, date_a);
    let xb = note_dir_prefix(dir_b, date_b);
    let fa = note_file_name_text(a);
    let fb = note_file_name_text(b);
    let pa = note_path_text(dir_a, date_a, a);
    let pb = note_path_text(dir_b, date_b, b);
    assert(pa =~= xa + fa);
    assert(pb =~= xb + fb);
    lemma_file_name_has_no_separator(a);
    lemma_file_name_has_no_separator(b);
    if pa == pb {
        if fa.len() < fb.len() {
            let k = xa.len() - 1;
            assert(xa.last() == '/');
            assert(pa[k] == xa[k]);
            assert(pb[k] == fb[k - xb.len()]);
        } else if fb.len() < fa.len() {
            let k = xb.len() - 1;
            assert(xb.last() == '/');
            assert(pb[k] == xb[k]);
            assert(pa[k] == fa[k - xa.len()]);
        } else {
            assert forall|i: int| 0 <= i < sanitized_text(a).len() implies sanitized_text(a)[i]
                == sanitized_text(b)[i] by {
                assert(pa[xa.len() + i] == fa[i]);
                assert(pb[xb.len() + i] == fb[i]);
                assert(fa[i] == sanitized_text(a)[i]);
                assert(fb[i] == sanitized_text(b)[i]);
            }
            assert(sanitized_text(a) =~= sanitized_text(b));
        }
    }
}

/// `path` is the path of the file of the note `id` for some notes
/// directory and some date.
pub open spec fn is_note_path_for(path: Seq<char>, id: Seq<char>) -> bool {
    exists|notes_dir: Seq<char>, date: CalendarDate|
        path == #[trigger] note_path_text(notes_dir, date, id)
}

/// Every id on record has the path of its own file.
pub open spec fn entries_are_note_paths(index: Map<Seq<char>, Seq<char>>) -> bool {
    forall|id: Seq<char>| #[trigger]
        index.contains_key(id) ==> is_note_path_for(index[id], id)
}

/// The index from note id to the path of the note's file. An id, once
/// entered, keeps its path: entries are added and never changed or removed.
pub struct NoteIndex {
    paths: StringHashMap<String>,
}

impl View for NoteIndex {
    type V = Map<Seq<char>, Seq<char>>;

    closed spec fn view(&self) -> Map<Seq<char>, Seq<char>> {
        self.paths@.map_values(|path: String| path@)
    }
}

/// The path that resolving `id` yields against `index`: the one on record,
/// or else the path of a note first seen on `date`.
pub open spec fn resolved_path(
    index: Map<Seq<char>, Seq<char>>,
    id: Seq<char>,
    notes_dir: Seq<char>,
    date: CalendarDate,
) -> Seq<char> {
    if index.contains_key(id) {
        index[id]
    } else {
        note_path_text(notes_dir, date, id)
    }
}

/// The index after resolving `id`: unchanged if the id was on record, and
/// else with the id's new path entered.
pub open spec fn resolved_index(
    index: Map<Seq<char>, Seq<char>>,
    id: Seq<char>,
    notes_dir: Seq<char>,
    date: CalendarDate,
) -> Map<Seq<char>, Seq<char>> {
    if index.contains_key(id) {
        index
    } else {
        index.insert(id, note_path_text(notes_dir, date, id))
    }
}

impl NoteIndex {
    #[verifier::type_invariant]
    spec fn holds_note_paths(self) -> bool {
        entries_are_note_paths(self@) && self@.dom().finite()
    }

    /// An index without entries.
    pub fn new() -> (r: NoteIndex)
        ensures
            r@ == Map::<Seq<char>, Seq<char>>::empty(),
            r@.dom().finite(),
    {
        let paths: StringHashMap<String> = StringHashMap::new();
        assert(paths@.map_values(|path: String| path@) =~= Map::<Seq<char>, Seq<char>>::empty());
        assert(paths@.map_values(|path: String| path@).dom() =~= Set::<Seq<char>>::empty());
        let r = NoteIndex { paths };
        r
    }

    /// The number of ids on record.
    pub fn len(&self) -> (n: usize)
        ensures
            n == self@.len(),
            self@.dom().finite(),
    {
        proof {
            use_type_invariant(self);
            assert(self@.dom() =~= self.paths@.dom());
        }
        self.paths.len()
    }

    /// Tells whether `id` is on record.
    pub fn contains(&self, id: &str) -> (r: bool)
        ensures
            r == self@.contains_key(id@),
    {
        self.paths.contains_key(id)
    }

    /// The path on record for `id`, if there is one.
    pub fn lookup(&self, id: &str) -> (r: Option<String>)
        ensures
            r is Some <==> self@.contains_key(id@),
            r is Some ==> r->0@ == self@[id@],
    {
        match self.paths.get(id) {
            Some(path) => Some(path.clone()),
            None => None,
        }
    }
}

/// Resolves the path of the note `id`. An id on record keeps its path and
/// the index stays as it is; a new id gets the path of a note first seen on
/// `today` under `notes_dir`, and that path is entered in the index.
pub fn get_path_for_note_id(
    id: &str,
    notes_dir: &str,
    today: &CalendarDate,
    notes_map: &mut NoteIndex,
) -> (path: String)
    ensures
        path@ == resolved_path(old(notes_map)@, id@, notes_dir@, *today),
        final(notes_map)@ == resolved_index(old(notes_map)@, id@, notes_dir@, *today),
        entries_are_note_paths(old(notes_map)@),
        entries_are_note_paths(final(notes_map)@),
        old(notes_map)@.dom().finite(),
        final(notes_map)@.dom().finite(),
        !old(notes_map)@.contains_key(id@) ==> final(notes_map)@.len() == old(notes_map)@.len() + 1,
{
    proof {
        use_type_invariant(&*notes_map);
        lemma_resolution_keeps_note_paths(notes_map@, id@, notes_dir@, *today);
    }
    match notes_map.lookup(id) {
        Some(path) => path,
        None => {
            let path = note_path(notes_dir, today, id);
            let ghost before = notes_map.paths@;
            let mut paths = StringHashMap::new();
            assert(paths@.map_values(|path: String| path@) =~= Map::<
                Seq<char>,
                Seq<char>,
            >::empty());
            std::mem::swap(&mut notes_map.paths, &mut paths);
            paths.insert(String::from_str(id), path.clone());
            assert(paths@.map_values(|path: String| path@) =~= before.map_values(
                |path: String| path@,
            ).insert(id@, path@));
            std::mem::swap(&mut notes_map.paths, &mut paths);
            path
        },
    }
}

/// Resolving an id a second time yields the path of the first time and
/// leaves the index as the first time left it, whatever directory and date
/// the second call is given.
pub proof fn lemma_resolution_is_idempotent(
    index: Map<Seq<char>, Seq<char>>,
    id: Seq<char>,
    notes_dir: Seq<char>,
    date: CalendarDate,
    later_dir: Seq<char>,
    later_date: CalendarDate,
)
    ensures
        resolved_path(resolved_index(index, id, notes_dir, date), id, later_dir, later_date)
            == resolved_path(index, id, notes_dir, date),
        resolved_index(resolved_index(index, id, notes_dir, date), id, later_dir, later_date)
            == resolved_index(index, id, notes_dir, date),
{
}

/// Resolving any id leaves every entry on record as it was.
pub proof fn lemma_resolution_keeps_entries(
    index: Map<Seq<char>, Seq<char>>,
    id: Seq<char>,
    notes_dir: Seq<char>,
    date: CalendarDate,
    known: Seq<char>,
)
    requires
        index.contains_key(known),
    ensures
        resolved_index(index, id, notes_dir, date).contains_key(known),
        resolved_index(index, id, notes_dir, date)[known] == index[known],
{
}

/// Resolving an id keeps the index an index of note paths.
pub proof fn lemma_resolution_keeps_note_paths(
    index: Map<Seq<char>, Seq<char>>,
    id: Seq<char>,
    notes_dir: Seq<char>,
    date: CalendarDate,
)
    requires
        entries_are_note_paths(index),
    ensures
        entries_are_note_paths(resolved_index(index, id, notes_dir, date)),
        is_note_path_for(resolved_path(index, id, notes_dir, date), id),
{
    let next = resolved_index(index, id, notes_dir, date);
    assert(is_note_path_for(note_path_text(notes_dir, date, id), id));
    assert forall|other: Seq<char>| #[trigger] next.contains_key(other) implies is_note_path_for(
        next[other],
        other,
    ) by {
        if other != id {
            assert(index.contains_key(other));
        }
    }
}

/// Two ids on record whose sanitized forms differ have different files:
/// what is stored for the one never lands in the file of the other.
pub proof fn lemma_index_keeps_notes_apart(
    index: Map<Seq<char>, Seq<char>>,
    a: Seq<char>,
    b: Seq<char>,
)
    requires
        entries_are_note_paths(index),
        index.contains_key(a),
        index.contains_key(b),
        sanitized_text(a) != sanitized_text(b),
    ensures
        index[a] != index[b],
{
    let (dir_a, date_a) = choose|notes_dir: Seq<char>, date: CalendarDate|
        index[a] == #[trigger] note_path_text(notes_dir, date, a);
    let (dir_b, date_b) = choose|notes_dir: Seq<char>, date: CalendarDate|
        index[b] == #[trigger] note_path_text(notes_dir, date, b);
    lemma_distinct_names_get_distinct_paths(dir_a, date_a, a, dir_b, date_b, b);
}

/// A note: a short text kept under an id that the caller chose.
#[derive(Clone, Debug, PartialEq, Eq)]
pub struct Note {
    pub id: String,
    pub content: String,
}

/// A [`Note`] as plain text.
pub struct NoteView {
    pub id: Seq<char>,
    pub content: Seq<char>,
}

impl View for Note {
    type V = NoteView;

    open spec fn view(&self) -> NoteView {
        NoteView { id: self.id@, content: self.content@ }
    }
}

/// A text as a JSON string: between double quotes, with the escapes that
/// `serde_json` writes.
pub uninterp spec fn json_string_text(text: Seq<char>) -> Seq<char>;

/// Calls `serde_json::to_string` on a string slice. The result is a
/// function of the text alone. Writing a string into memory cannot fail,
/// so the second arm is never taken.
#[verifier::external_body]
fn json_string(text: &str) -> (r: String)
    ensures
        r@ == json_string_text(text@),
{
    match serde_json::to_string(text) {
        Ok(json) => json,
        Err(_) => String::new(),
    }
}

/// The string that a JSON document holds under `name`: `Some` exactly when
/// the document is well-formed JSON, is an object, has a member `name`, and
/// that member is a string.
pub uninterp spec fn json_member_text(document: Seq<u8>, name: Seq<char>) -> Option<Seq<char>>;

/// Calls `serde_json::from_slice` to read the document as a
/// `serde_json::Value`, `Value::get` to find the member and `Value::as_str`
/// to read it as a string. The result is a function of the document and
/// the name alone.
#[verifier::external_body]
fn json_member(document: &[u8], name: &str) -> (r: Option<String>)
    ensures
        r.deep_view() == json_member_text(document@, name@),
{
    let value: serde_json::Value = serde_json::from_slice(document).ok()?;
    Some(value.get(name)?.as_str()?.to_string())
}

/// A note in its JSON form: an object with the members `id` and `content`,
/// in this order, without any space.
pub open spec fn note_json_text(note: NoteView) -> Seq<char> {
    "{\"id\":"@ + json_string_text(note.id) + ",\"content\":"@ + json_string_text(note.content)
        + "}"@
}

/// The note that a JSON document holds: one exists exactly when the
/// document has both a string `id` and a string `content`. Other members
/// are ignored, and the order of the members does not matter.
pub open spec fn decoded_note(document: Seq<u8>) -> Option<NoteView> {
    match (json_member_text(document, "id"@), json_member_text(document, "content"@)) {
        (Some(id), Some(content)) => Some(NoteView { id, content }),
        _ => None,
    }
}

/// Writes a note in its JSON form.
pub fn note_json(note: &Note) -> (r: String)
    ensures
        r@ == note_json_text(note@),
{
    let mut out = String::from_str("{\"id\":");
    let id = json_string(note.id.as_str());
    out.append(id.as_str());
    out.append(",\"content\":");
    let content = json_string(note.content.as_str());
    out.append(content.as_str());
    out.append("}");
    assert(out@ =~= note_json_text(note@));
    out
}

/// Reads a note from its JSON form. A document that is not JSON, or lacks
/// a string `id` or a string `content`, is refused as undecodable.
pub fn parse_note(document: &[u8]) -> (r: Result<Note, ServiceError>)
    ensures
        match r {
            Ok(note) => decoded_note(document@) == Some(note@),
            Err(e) => decoded_note(document@) is None && e is Decode,
        },
{
    let id = json_member(document, "id");
    let content = json_member(document, "content");
    match (id, content) {
        (Some(id), Some(content)) => Ok(Note { id, content }),
        _ => Err(ServiceError::Decode),
    }
}

} // verus!
