use onboarder::dates::CalendarDate;
use onboarder::effects::ServiceError;
use onboarder::notes::{
    get_path_for_note_id, note_json, note_path, parse_note, sanitize_id, unsafe_in_file_name, Note,
    NoteIndex,
};

fn day(year: i32, month: u32, day: u32) -> CalendarDate {
    CalendarDate { year, month, day }
}

#[test]
fn sanitize_replaces_slash_and_colon() {
    assert_eq!(sanitize_id("a/b:c"), "a_b_c");
}

#[test]
fn sanitize_replaces_every_unsafe_character() {
    assert_eq!(sanitize_id("<>:\"/\\|?*\n"), "__________");
    for c in ['<', '>', ':', '"', '/', '\\', '|', '?', '*', '\n'] {
        assert!(unsafe_in_file_name(c));
    }
}

#[test]
fn sanitize_keeps_every_other_character() {
    assert_eq!(sanitize_id("abc-DEF_123 .é日本"), "abc-DEF_123 .é日本");
    assert_eq!(sanitize_id(""), "");
    assert_eq!(sanitize_id("a\tb\rc"), "a\tb\rc");
    for c in ['a', '_', '.', ' ', '\t', '\r', '-', '%', '&', '='] {
        assert!(!unsafe_in_file_name(c));
    }
}

#[test]
fn sanitize_twice_is_sanitize_once() {
    for id in ["a/b:c", "plain", "???", "x\ny"] {
        let once = sanitize_id(id);
        assert_eq!(sanitize_id(&once), once);
        assert_eq!(once.chars().count(), id.chars().count());
    }
}

#[test]
fn note_path_is_dated_directory_and_file_name() {
    assert_eq!(note_path("/notes", &day(2024, 3, 7), "abc"), "/notes/2024/03/07/abc.txt");
    assert_eq!(note_path("/notes/", &day(2024, 3, 7), "abc"), "/notes/2024/03/07/abc.txt");
    assert_eq!(note_path("notes", &day(2024, 11, 30), ""), "notes/2024/11/30/.txt");
}

#[test]
fn note_path_does_not_name_the_raw_id() {
    let path = note_path("/notes", &day(2024, 3, 7), "a/b:c");
    assert_eq!(path, "/notes/2024/03/07/a_b_c.txt");
    assert!(!path.ends_with("a/b:c.txt"));
}

#[test]
fn resolution_with_a_fixed_date_is_idempotent() {
    let mut index = NoteIndex::new();
    let today = day(2024, 3, 7);
    let first = get_path_for_note_id("abc", "/notes", &today, &mut index);
    let second = get_path_for_note_id("abc", "/notes", &today, &mut index);
    assert_eq!(first, "/notes/2024/03/07/abc.txt");
    assert_eq!(first, second);
    assert_eq!(index.len(), 1);
}

#[test]
fn resolved_path_survives_midnight() {
    let mut index = NoteIndex::new();
    let first = get_path_for_note_id("abc", "/notes", &day(2024, 3, 7), &mut index);
    let second = get_path_for_note_id("abc", "/notes", &day(2024, 3, 8), &mut index);
    let third = get_path_for_note_id("abc", "/elsewhere", &day(2025, 1, 1), &mut index);
    assert_eq!(first, second);
    assert_eq!(first, third);
    assert_eq!(index.lookup("abc"), Some("/notes/2024/03/07/abc.txt".to_string()));
}

#[test]
fn a_new_id_makes_the_index_one_longer() {
    let mut index = NoteIndex::new();
    for (n, id) in ["a", "b", "c", "a", "b", "d"].iter().enumerate() {
        let before = index.len();
        let known = index.contains(id);
        get_path_for_note_id(id, "/notes", &day(2024, 3, 7), &mut index);
        assert_eq!(index.len(), if known { before } else { before + 1 }, "at {}", n);
    }
    assert_eq!(index.len(), 4);
}

#[test]
fn new_index_is_empty() {
    let index = NoteIndex::new();
    assert_eq!(index.len(), 0);
    assert!(!index.contains("abc"));
    assert_eq!(index.lookup("abc"), None);
}

#[test]
fn index_keeps_earlier_entries() {
    let mut index = NoteIndex::new();
    let a = get_path_for_note_id("a", "/notes", &day(2024, 3, 7), &mut index);
    let b = get_path_for_note_id("b", "/notes", &day(2024, 3, 8), &mut index);
    assert_ne!(a, b);
    assert_eq!(index.len(), 2);
    assert!(index.contains("a"));
    assert!(index.contains("b"));
    assert_eq!(index.lookup("a"), Some(a));
    assert_eq!(index.lookup("b"), Some(b));
}

#[test]
fn index_is_keyed_by_the_raw_id() {
    let mut index = NoteIndex::new();
    let today = day(2024, 3, 7);
    let first = get_path_for_note_id("a/b", "/notes", &today, &mut index);
    let second = get_path_for_note_id("a:b", "/notes", &today, &mut index);
    assert_eq!(index.len(), 2);
    assert!(index.contains("a/b"));
    assert!(!index.contains("a_b"));
    assert_eq!(first, "/notes/2024/03/07/a_b.txt");
    assert_eq!(first, second);
}

#[test]
fn distinct_names_get_distinct_paths() {
    let mut index = NoteIndex::new();
    let mut paths = Vec::new();
    for (i, id) in ["one", "two", "three", "fo/ur", "fi:ve"].iter().enumerate() {
        let date = day(2024, 3, 1 + (i as u32 % 2));
        paths.push(get_path_for_note_id(id, "/notes", &date, &mut index));
    }
    for i in 0..paths.len() {
        for j in 0..paths.len() {
            if i != j {
                assert_ne!(paths[i], paths[j]);
            }
        }
    }
}

#[test]
fn note_json_has_id_then_content() {
    let note = Note { id: "abc".to_string(), content: "hello".to_string() };
    assert_eq!(note_json(&note), "{\"id\":\"abc\",\"content\":\"hello\"}");
}

#[test]
fn note_json_of_an_empty_note() {
    let note = Note { id: "never-seen".to_string(), content: String::new() };
    assert_eq!(note_json(&note), "{\"id\":\"never-seen\",\"content\":\"\"}");
}

#[test]
fn note_json_escapes_what_json_must() {
    let note = Note { id: "a\"b".to_string(), content: "line\nback\\slash\ttab".to_string() };
    assert_eq!(
        note_json(&note),
        "{\"id\":\"a\\\"b\",\"content\":\"line\\nback\\\\slash\\ttab\"}"
    );
    let note = Note { id: "é".to_string(), content: "\u{1}".to_string() };
    assert_eq!(note_json(&note), "{\"id\":\"é\",\"content\":\"\\u0001\"}");
}

#[test]
fn parse_note_reads_both_members() {
    let note = parse_note(b"{\"id\":\"abc\",\"content\":\"hello\"}").unwrap();
    assert_eq!(note, Note { id: "abc".to_string(), content: "hello".to_string() });
}

#[test]
fn parse_note_ignores_order_space_and_other_members() {
    let note =
        parse_note(b" { \"content\" : \"x\\ny\", \"extra\": [1, 2], \"id\" : \"a/b\" } ").unwrap();
    assert_eq!(note, Note { id: "a/b".to_string(), content: "x\ny".to_string() });
}

#[test]
fn parse_note_refuses_what_is_no_note() {
    assert_eq!(parse_note(b"{\"id\":\"abc\"}"), Err(ServiceError::Decode));
    assert_eq!(parse_note(b"{\"content\":\"abc\"}"), Err(ServiceError::Decode));
    assert_eq!(parse_note(b"{\"id\":1,\"content\":\"abc\"}"), Err(ServiceError::Decode));
    assert_eq!(parse_note(b"{\"id\":\"a\",\"content\":null}"), Err(ServiceError::Decode));
    assert_eq!(parse_note(b"not json"), Err(ServiceError::Decode));
    assert_eq!(parse_note(b""), Err(ServiceError::Decode));
    assert_eq!(parse_note(b"[\"a\",\"b\"]"), Err(ServiceError::Decode));
    assert_eq!(parse_note(b"{\"id\":\"a\",\"content\":\"b\"} trailing"), Err(ServiceError::Decode));
}

#[test]
fn note_json_reads_back() {
    for (id, content) in [("abc", "hello"), ("a\"b\\c", "tab\tnew\nline"), ("日本", "✓ \u{7f}")] {
        let note = Note { id: id.to_string(), content: content.to_string() };
        let json = note_json(&note);
        assert_eq!(parse_note(json.as_bytes()), Ok(note));
    }
}
