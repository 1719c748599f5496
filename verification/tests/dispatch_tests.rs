use onboarder::config::Configuration;
use onboarder::dates::{dated_dir_on, CalendarDate};
use onboarder::dispatch::{handle, handle_on, note_read_reply, resume};
use onboarder::effects::{Command, Effect, Outcome, ProcessOutput, ServiceError};
use onboarder::http::{Method, Request, Response};
use onboarder::notes::NoteIndex;
use onboarder::protocol::{Pending, Step};
use onboarder::tools::{filename_query, launch, open_folder, search, DownloadMode};
use std::collections::BTreeMap;

/// A file system and a process table that live in memory.
struct World {
    files: BTreeMap<String, Vec<u8>>,
    dirs: Vec<String>,
    runs: Vec<Command>,
    effects: Vec<Effect>,
    refuse_directories: bool,
    refuse_writes: bool,
    refuse_reads: bool,
    refuse_creation: bool,
    refuse_resolution: bool,
    tools: Vec<(String, Outcome)>,
}

fn world() -> World {
    World {
        files: BTreeMap::new(),
        dirs: Vec::new(),
        runs: Vec::new(),
        effects: Vec::new(),
        refuse_directories: false,
        refuse_writes: false,
        refuse_reads: false,
        refuse_creation: false,
        refuse_resolution: false,
        tools: Vec::new(),
    }
}

fn exited(success: bool, stdout: &str, stderr: &str) -> Outcome {
    Outcome::Exited {
        output: ProcessOutput {
            success,
            stdout: stdout.as_bytes().to_vec(),
            stderr: stderr.as_bytes().to_vec(),
        },
    }
}

fn perform(world: &mut World, effect: &Effect) -> Outcome {
    world.effects.push(effect.clone());
    match effect {
        Effect::CreateDirectory { path } => {
            if world.refuse_directories {
                Outcome::Failed
            } else {
                if !world.dirs.contains(path) {
                    world.dirs.push(path.clone());
                }
                Outcome::Done
            }
        }
        Effect::WriteFile { path, bytes } => {
            if world.refuse_writes {
                Outcome::Failed
            } else {
                world.files.insert(path.clone(), bytes.clone());
                Outcome::Done
            }
        }
        Effect::ReadFile { path } => {
            if world.refuse_reads {
                Outcome::Failed
            } else {
                match world.files.get(path) {
                    Some(bytes) => Outcome::Content { bytes: bytes.clone() },
                    None => Outcome::Missing,
                }
            }
        }
        Effect::CreateEmptyFile { path } => {
            if world.refuse_creation {
                Outcome::Failed
            } else {
                world.files.entry(path.clone()).or_insert_with(Vec::new);
                Outcome::Done
            }
        }
        Effect::ResolveAbsolute { path } => {
            if world.refuse_resolution {
                Outcome::Failed
            } else {
                Outcome::Absolute { path: format!("/abs/{}", path) }
            }
        }
        Effect::Run { command } => {
            world.runs.push(command.clone());
            for (marker, outcome) in world.tools.iter() {
                if command.program == *marker {
                    return outcome.clone();
                }
            }
            for (marker, outcome) in world.tools.iter() {
                if command.args.iter().any(|arg| arg.contains(marker.as_str())) {
                    return outcome.clone();
                }
            }
            exited(true, "", "")
        }
    }
}

fn cors() -> Vec<(String, String)> {
    vec![
        ("Access-Control-Allow-Origin".to_string(), "https://www.youtube.com".to_string()),
        ("Access-Control-Allow-Methods".to_string(), "GET, POST, OPTIONS".to_string()),
        ("Access-Control-Allow-Headers".to_string(), "Content-Type".to_string()),
    ]
}

fn finish(
    world: &mut World,
    mut step: Step,
    config: &Configuration,
    index: &mut NoteIndex,
) -> (Response, Option<ServiceError>) {
    loop {
        match step {
            Step::Perform { effect, pending } => {
                let outcome = perform(world, &effect);
                step = resume(pending, outcome, config, index);
            }
            Step::Reply { response, failure } => {
                assert_eq!(response.headers, cors());
                return (response, failure);
            }
        }
    }
}

fn serve(
    world: &mut World,
    request: &Request,
    config: &Configuration,
    index: &mut NoteIndex,
    today: &CalendarDate,
) -> (Response, Option<ServiceError>) {
    let step = handle_on(request, config, index, today);
    finish(world, step, config, index)
}

fn config() -> Configuration {
    Configuration {
        notes_dir: "/notes".to_string(),
        downloads_dir: "/downloads".to_string(),
        search_dirs: vec!["/videos".to_string(), "/music".to_string()],
        port: 3000,
    }
}

fn today() -> CalendarDate {
    CalendarDate { year: 2024, month: 3, day: 7 }
}

fn request(method: Method, path: &str, query: Option<&str>, body: &[u8]) -> Request {
    Request {
        method,
        path: path.to_string(),
        query: query.map(|q| q.to_string()),
        body: body.to_vec(),
    }
}

fn set_note(id: &str, content: &str) -> Request {
    let body = format!("{{\"id\":{:?},\"content\":{:?}}}", id, content);
    request(Method::Post, "/set_note", None, body.as_bytes())
}

fn get_note(query: &str) -> Request {
    request(Method::Get, "/get_note", Some(query), b"")
}

#[test]
fn set_note_then_get_note_returns_the_note() {
    let mut w = world();
    let mut index = NoteIndex::new();
    let (response, failure) = serve(&mut w, &set_note("abc", "hello"), &config(), &mut index, &today());
    assert_eq!(response.status, 200);
    assert_eq!(response.body, "Note set");
    assert_eq!(failure, None);
    let (response, failure) = serve(&mut w, &get_note("id=abc"), &config(), &mut index, &today());
    assert_eq!(response.status, 200);
    assert_eq!(response.body, "{\"id\":\"abc\",\"content\":\"hello\"}");
    assert_eq!(failure, None);
    assert_eq!(w.files.get("/notes/2024/03/07/abc.txt"), Some(&b"hello".to_vec()));
}

#[test]
fn set_note_overwrites_the_whole_content() {
    let mut w = world();
    let mut index = NoteIndex::new();
    serve(&mut w, &set_note("abc", "a long first text"), &config(), &mut index, &today());
    serve(&mut w, &set_note("abc", "short"), &config(), &mut index, &today());
    let (response, _) = serve(&mut w, &get_note("id=abc"), &config(), &mut index, &today());
    assert_eq!(response.body, "{\"id\":\"abc\",\"content\":\"short\"}");
}

#[test]
fn missing_note_reads_empty_and_creates_the_file() {
    let mut w = world();
    let mut index = NoteIndex::new();
    let (response, failure) =
        serve(&mut w, &get_note("id=never-seen"), &config(), &mut index, &today());
    assert_eq!(response.status, 200);
    assert_eq!(response.body, "{\"id\":\"never-seen\",\"content\":\"\"}");
    assert_eq!(failure, None);
    assert_eq!(w.files.get("/notes/2024/03/07/never-seen.txt"), Some(&Vec::new()));
    assert_eq!(
        w.effects,
        vec![
            Effect::CreateDirectory { path: "/notes/2024/03/07".to_string() },
            Effect::ReadFile { path: "/notes/2024/03/07/never-seen.txt".to_string() },
            Effect::CreateEmptyFile { path: "/notes/2024/03/07/never-seen.txt".to_string() },
        ]
    );
}

#[test]
fn unsafe_characters_never_reach_the_file_name() {
    let mut w = world();
    let mut index = NoteIndex::new();
    let (response, _) = serve(&mut w, &set_note("a/b:c", "x"), &config(), &mut index, &today());
    assert_eq!(response.status, 200);
    assert!(w.files.contains_key("/notes/2024/03/07/a_b_c.txt"));
    assert!(!w.files.keys().any(|path| path.ends_with("a/b:c.txt")));
    assert_eq!(w.files.len(), 1);
    let (response, _) = serve(&mut w, &get_note("id=a%2Fb%3Ac"), &config(), &mut index, &today());
    assert_eq!(response.body, "{\"id\":\"a/b:c\",\"content\":\"x\"}");
}

#[test]
fn interleaved_notes_with_distinct_ids_keep_their_own_content() {
    let mut w = world();
    let mut index = NoteIndex::new();
    let cfg = config();
    let ids = ["n0", "n1", "n2", "n3", "n4", "n5", "n6", "n7"];
    let mut steps = Vec::new();
    for id in ids {
        let content = format!("content of {}", id);
        steps.push(handle_on(&set_note(id, &content), &cfg, &index, &today()));
    }
    let mut second = Vec::new();
    for step in steps.into_iter().rev() {
        match step {
            Step::Perform { effect, pending } => {
                let outcome = perform(&mut w, &effect);
                second.push(resume(pending, outcome, &cfg, &mut index));
            }
            Step::Reply { .. } => panic!("a new note needs its directory"),
        }
    }
    for step in second {
        let (response, failure) = finish(&mut w, step, &cfg, &mut index);
        assert_eq!(response.status, 200);
        assert_eq!(failure, None);
    }
    assert_eq!(w.files.len(), ids.len());
    assert_eq!(index.len(), ids.len());
    for id in ids {
        let path = format!("/notes/2024/03/07/{}.txt", id);
        assert_eq!(w.files.get(&path), Some(&format!("content of {}", id).into_bytes()));
    }
}

#[test]
fn two_requests_racing_for_one_new_id_agree_on_the_path() {
    let mut w = world();
    let mut index = NoteIndex::new();
    let cfg = config();
    let first = handle_on(&set_note("abc", "one"), &cfg, &index, &today());
    let tomorrow = CalendarDate { year: 2024, month: 3, day: 8 };
    let second = handle_on(&set_note("abc", "two"), &cfg, &index, &tomorrow);
    finish(&mut w, first, &cfg, &mut index);
    finish(&mut w, second, &cfg, &mut index);
    assert_eq!(index.len(), 1);
    assert_eq!(index.lookup("abc"), Some("/notes/2024/03/07/abc.txt".to_string()));
    assert_eq!(w.files.len(), 1);
    assert_eq!(w.files.get("/notes/2024/03/07/abc.txt"), Some(&b"two".to_vec()));
}

#[test]
fn a_note_on_record_needs_no_directory() {
    let mut w = world();
    let mut index = NoteIndex::new();
    serve(&mut w, &set_note("abc", "hello"), &config(), &mut index, &today());
    w.effects.clear();
    w.refuse_directories = true;
    let tomorrow = CalendarDate { year: 2024, month: 3, day: 8 };
    let (response, _) = serve(&mut w, &get_note("id=abc"), &config(), &mut index, &tomorrow);
    assert_eq!(response.status, 200);
    assert_eq!(w.effects, vec![Effect::ReadFile { path: "/notes/2024/03/07/abc.txt".to_string() }]);
    let (response, _) = serve(&mut w, &set_note("abc", "again"), &config(), &mut index, &tomorrow);
    assert_eq!(response.status, 200);
    assert_eq!(w.files.get("/notes/2024/03/07/abc.txt"), Some(&b"again".to_vec()));
    assert!(w.dirs.iter().all(|dir| dir == "/notes/2024/03/07"));
}

#[test]
fn malformed_note_is_refused() {
    let mut w = world();
    let mut index = NoteIndex::new();
    for body in [&b"not json"[..], b"{\"id\":\"abc\"}", b"{\"id\":3,\"content\":\"x\"}", b""] {
        let r = request(Method::Post, "/set_note", None, body);
        let (response, failure) = serve(&mut w, &r, &config(), &mut index, &today());
        assert_eq!(response.status, 400);
        assert_eq!(response.body, "Invalid note");
        assert_eq!(failure, Some(ServiceError::Decode));
    }
    assert!(w.effects.is_empty());
    assert_eq!(index.len(), 0);
}

#[test]
fn get_note_without_an_id_is_refused() {
    let mut w = world();
    let mut index = NoteIndex::new();
    for query in [None, Some(""), Some("id"), Some("anything=abc")] {
        let r = request(Method::Get, "/get_note", query, b"");
        let (response, failure) = serve(&mut w, &r, &config(), &mut index, &today());
        assert_eq!(response.status, 400);
        assert_eq!(response.body, "Missing id parameter");
        assert_eq!(failure, Some(ServiceError::Decode));
    }
    assert!(w.effects.is_empty());
}

#[test]
fn failed_note_directory_is_a_directory_error() {
    let mut w = world();
    w.refuse_directories = true;
    let mut index = NoteIndex::new();
    let (response, failure) = serve(&mut w, &set_note("abc", "hello"), &config(), &mut index, &today());
    assert_eq!(response.status, 500);
    assert_eq!(response.body, "Error getting path for note id");
    assert_eq!(failure, Some(ServiceError::Directory));
    assert_eq!(index.len(), 0);
    assert!(w.files.is_empty());
}

#[test]
fn failed_write_is_an_io_error() {
    let mut w = world();
    w.refuse_writes = true;
    let mut index = NoteIndex::new();
    let (response, failure) = serve(&mut w, &set_note("abc", "hello"), &config(), &mut index, &today());
    assert_eq!(response.status, 500);
    assert_eq!(response.body, "Error writing note");
    assert_eq!(failure, Some(ServiceError::Io));
}

#[test]
fn failed_read_is_an_io_error() {
    let mut w = world();
    w.refuse_reads = true;
    let mut index = NoteIndex::new();
    let (response, failure) = serve(&mut w, &get_note("id=abc"), &config(), &mut index, &today());
    assert_eq!(response.status, 500);
    assert_eq!(response.body, "Error reading note");
    assert_eq!(failure, Some(ServiceError::Io));
}

#[test]
fn failed_creation_is_an_io_error() {
    let mut w = world();
    w.refuse_creation = true;
    let mut index = NoteIndex::new();
    let (response, failure) = serve(&mut w, &get_note("id=abc"), &config(), &mut index, &today());
    assert_eq!(response.status, 500);
    assert_eq!(response.body, "Error creating note");
    assert_eq!(failure, Some(ServiceError::Io));
}

#[test]
fn malformed_file_content_is_read_with_replacement() {
    let mut w = world();
    let mut index = NoteIndex::new();
    serve(&mut w, &set_note("abc", "x"), &config(), &mut index, &today());
    w.files.insert("/notes/2024/03/07/abc.txt".to_string(), vec![b'a', 0xff, b'b']);
    let (response, failure) = serve(&mut w, &get_note("id=abc"), &config(), &mut index, &today());
    assert_eq!(response.status, 200);
    assert_eq!(response.body, "{\"id\":\"abc\",\"content\":\"a\u{fffd}b\"}");
    assert_eq!(failure, None);
}

#[test]
fn note_read_reply_is_the_note_as_json() {
    match note_read_reply("abc".to_string(), "héllo \"x\"".as_bytes()) {
        Step::Reply { response, failure } => {
            assert_eq!(response.status, 200);
            assert_eq!(response.body, "{\"id\":\"abc\",\"content\":\"héllo \\\"x\\\"\"}");
            assert_eq!(response.headers, cors());
            assert_eq!(failure, None);
        }
        Step::Perform { .. } => panic!("a read ends the request"),
    }
}

#[test]
fn healthcheck_preflight_and_unknown_routes() {
    let mut w = world();
    let mut index = NoteIndex::new();
    let r = request(Method::Get, "/healthcheck", None, b"");
    let (response, failure) = serve(&mut w, &r, &config(), &mut index, &today());
    assert_eq!((response.status, response.body.as_str(), failure), (200, "", None));
    let r = request(Method::Options, "/set_note", None, b"");
    let (response, failure) = serve(&mut w, &r, &config(), &mut index, &today());
    assert_eq!((response.status, response.body.as_str(), failure), (200, "", None));
    let r = request(Method::Get, "/nothing", None, b"");
    let (response, failure) = serve(&mut w, &r, &config(), &mut index, &today());
    assert_eq!((response.status, response.body.as_str(), failure), (404, "", None));
    let r = request(Method::Other, "/healthcheck", None, b"");
    let (response, _) = serve(&mut w, &r, &config(), &mut index, &today());
    assert_eq!(response.status, 404);
    assert!(w.effects.is_empty());
}

#[test]
fn exists_without_search_parameter_is_refused() {
    let mut w = world();
    let mut index = NoteIndex::new();
    let r = request(Method::Get, "/exists", Some("q=abc"), b"");
    let (response, failure) = serve(&mut w, &r, &config(), &mut index, &today());
    assert_eq!(response.status, 400);
    assert_eq!(response.body, "Missing search parameter");
    assert_eq!(failure, Some(ServiceError::Decode));
    assert!(w.runs.is_empty());
}

#[test]
fn exists_searches_every_directory_and_joins_the_results() {
    let mut w = world();
    w.tools.push(("/videos".to_string(), exited(true, "/videos/a needle.mp4\n", "")));
    w.tools.push(("/music".to_string(), exited(true, "/music/needle.mp3\r\n/music/Needle 2.mp3\r\n", "")));
    let mut index = NoteIndex::new();
    let r = request(Method::Get, "/exists", Some("search=needle"), b"");
    let (response, failure) = serve(&mut w, &r, &config(), &mut index, &today());
    assert_eq!(response.status, 200);
    assert_eq!(
        response.body,
        "Results: [\"/videos/a needle.mp4\", \"/music/needle.mp3\", \"/music/Needle 2.mp3\"]"
    );
    assert_eq!(failure, None);
    assert_eq!(w.runs, vec![search("needle", "/videos"), search("needle", "/music")]);
}

#[test]
fn exists_without_results_is_not_found() {
    let mut w = world();
    let mut index = NoteIndex::new();
    let r = request(Method::Get, "/exists", Some("search=needle"), b"");
    let (response, failure) = serve(&mut w, &r, &config(), &mut index, &today());
    assert_eq!(response.status, 404);
    assert_eq!(response.body, "No results found");
    assert_eq!(failure, None);
    assert_eq!(w.runs.len(), 2);
}

#[test]
fn exists_skips_a_search_that_failed() {
    let mut w = world();
    w.tools.push(("/videos".to_string(), exited(false, "/videos/ignored.mp4\n", "rg failed")));
    w.tools.push(("/music".to_string(), exited(true, "/music/needle.mp3\n", "")));
    let mut index = NoteIndex::new();
    let r = request(Method::Get, "/exists", Some("search=needle"), b"");
    let (response, _) = serve(&mut w, &r, &config(), &mut index, &today());
    assert_eq!(response.status, 200);
    assert_eq!(response.body, "Results: [\"/music/needle.mp3\"]");
    let mut w = world();
    w.tools.push(("pwsh".to_string(), Outcome::Failed));
    let (response, _) = serve(&mut w, &r, &config(), &mut index, &today());
    assert_eq!(response.status, 404);
    assert_eq!(w.runs.len(), 2);
}

#[test]
fn exists_without_directories_is_not_found() {
    let mut w = world();
    let mut index = NoteIndex::new();
    let mut cfg = config();
    cfg.search_dirs = Vec::new();
    let r = request(Method::Get, "/exists", Some("search=needle"), b"");
    let (response, _) = serve(&mut w, &r, &cfg, &mut index, &today());
    assert_eq!(response.status, 404);
    assert_eq!(response.body, "No results found");
    assert!(w.effects.is_empty());
}

#[test]
fn exists_keeps_a_quote_inside_the_search_text() {
    let mut w = world();
    let mut index = NoteIndex::new();
    let r = request(Method::Get, "/exists", Some("search=a%27%3B+calc%3B+%27"), b"");
    serve(&mut w, &r, &config(), &mut index, &today());
    assert_eq!(w.runs[0], search("a'; calc; '", "/videos"));
    assert!(w.runs[0].args[1].ends_with("--regexp 'a''; calc; '''"));
}

#[test]
fn a_single_result_is_a_list_of_one() {
    let mut w = world();
    w.tools.push(("/videos".to_string(), exited(true, "C:\\v\\a \"b\".mp4\n", "")));
    let mut index = NoteIndex::new();
    let r = request(Method::Get, "/exists", Some("search=a"), b"");
    let (response, _) = serve(&mut w, &r, &config(), &mut index, &today());
    assert_eq!(response.body, "Results: [\"C:\\\\v\\\\a \\\"b\\\".mp4\"]");
    assert_eq!(response.body, format!("Results: {:?}", vec!["C:\\v\\a \"b\".mp4".to_string()]));
}

#[test]
fn a_quote_in_the_url_reaches_the_launch_as_a_literal() {
    let mut w = world();
    let mut index = NoteIndex::new();
    let r = request(Method::Post, "/download_subtitles", None, b"x' ; calc ; '");
    let (response, _) = serve(&mut w, &r, &config(), &mut index, &today());
    assert_eq!(response.status, 200);
    assert_eq!(
        w.runs[0],
        launch(DownloadMode::SubtitlesOnly, "x' ; calc ; '", "/downloads/2024/03/07")
    );
    assert!(w.runs[0].args[4].contains("''x'''' ; calc ; ''''''"));
}

#[test]
fn exists_decodes_the_search_text() {
    let mut w = world();
    let mut index = NoteIndex::new();
    let r = request(Method::Get, "/exists", Some("search=two+words%21"), b"");
    serve(&mut w, &r, &config(), &mut index, &today());
    assert_eq!(w.runs[0], search("two words!", "/videos"));
}

#[test]
fn download_queries_the_filename_then_launches() {
    let mut w = world();
    w.tools.push(("yt-dlp".to_string(), exited(true, "Some Video [id].mp4\n", "")));
    let mut index = NoteIndex::new();
    let r = request(Method::Post, "/download", None, b"https://youtu.be/x");
    let (response, failure) = serve(&mut w, &r, &config(), &mut index, &today());
    assert_eq!(response.status, 200);
    assert_eq!(response.body, "Some Video [id].mp4");
    assert_eq!(failure, None);
    assert_eq!(
        w.effects,
        vec![
            Effect::CreateDirectory { path: "/downloads/2024/03/07".to_string() },
            Effect::Run {
                command: filename_query(DownloadMode::Video, "https://youtu.be/x").unwrap()
            },
            Effect::Run {
                command: launch(DownloadMode::Video, "https://youtu.be/x", "/downloads/2024/03/07")
            },
        ]
    );
}

#[test]
fn download_audio_uses_the_audio_commands() {
    let mut w = world();
    w.tools.push(("yt-dlp".to_string(), exited(true, "Song [id].webm\n", "")));
    let mut index = NoteIndex::new();
    let r = request(Method::Post, "/download_audio", None, b"https://youtu.be/x");
    let (response, failure) = serve(&mut w, &r, &config(), &mut index, &today());
    assert_eq!(response.status, 200);
    assert_eq!(response.body, "Song [id].webm");
    assert_eq!(failure, None);
    assert_eq!(
        w.runs,
        vec![
            filename_query(DownloadMode::Audio, "https://youtu.be/x").unwrap(),
            launch(DownloadMode::Audio, "https://youtu.be/x", "/downloads/2024/03/07"),
        ]
    );
}

#[test]
fn download_subtitles_launches_without_a_query() {
    let mut w = world();
    let mut index = NoteIndex::new();
    let r = request(Method::Post, "/download_subtitles", None, b"https://youtu.be/x");
    let (response, failure) = serve(&mut w, &r, &config(), &mut index, &today());
    assert_eq!(response.status, 200);
    assert_eq!(response.body, "Subtitles download started");
    assert_eq!(failure, None);
    assert_eq!(
        w.effects,
        vec![
            Effect::CreateDirectory { path: "/downloads/2024/03/07".to_string() },
            Effect::Run {
                command: launch(
                    DownloadMode::SubtitlesOnly,
                    "https://youtu.be/x",
                    "/downloads/2024/03/07"
                )
            },
        ]
    );
}

#[test]
fn failed_filename_query_launches_nothing() {
    for path in ["/download", "/download_audio"] {
        let mut w = world();
        w.tools.push(("yt-dlp".to_string(), exited(false, "", "ERROR: unknown URL")));
        let mut index = NoteIndex::new();
        let r = request(Method::Post, path, None, b"https://nowhere");
        let (response, failure) = serve(&mut w, &r, &config(), &mut index, &today());
        assert_eq!(response.status, 500);
        assert_eq!(response.body, "ERROR: unknown URL");
        assert_eq!(
            failure,
            Some(ServiceError::ExternalTool { diagnostic: "ERROR: unknown URL".to_string() })
        );
        assert_eq!(w.runs.len(), 1);
        assert_eq!(w.runs[0].program, "yt-dlp");
        assert!(w.runs.iter().all(|command| command.program != "pwsh"));
    }
}

#[test]
fn filename_query_that_did_not_run_launches_nothing() {
    let mut w = world();
    w.tools.push(("yt-dlp".to_string(), Outcome::Failed));
    let mut index = NoteIndex::new();
    let r = request(Method::Post, "/download", None, b"https://youtu.be/x");
    let (response, failure) = serve(&mut w, &r, &config(), &mut index, &today());
    assert_eq!(response.status, 500);
    assert_eq!(response.body, "Failed to execute command");
    assert_eq!(failure, Some(ServiceError::ExternalTool { diagnostic: String::new() }));
    assert_eq!(w.runs.len(), 1);
}

#[test]
fn failed_launch_is_a_tool_error() {
    let mut w = world();
    w.tools.push(("yt-dlp".to_string(), exited(true, "v.mp4\n", "")));
    w.tools.push(("pwsh".to_string(), exited(false, "", "wt: not found")));
    let mut index = NoteIndex::new();
    let r = request(Method::Post, "/download", None, b"https://youtu.be/x");
    let (response, failure) = serve(&mut w, &r, &config(), &mut index, &today());
    assert_eq!(response.status, 500);
    assert_eq!(response.body, "download failed");
    assert_eq!(failure, Some(ServiceError::ExternalTool { diagnostic: "wt: not found".to_string() }));
    let r = request(Method::Post, "/download_subtitles", None, b"https://youtu.be/x");
    let (response, failure) = serve(&mut w, &r, &config(), &mut index, &today());
    assert_eq!(response.status, 500);
    assert_eq!(response.body, "Subtitles download failed");
    assert_eq!(failure, Some(ServiceError::ExternalTool { diagnostic: "wt: not found".to_string() }));
}

#[test]
fn failed_download_directory_is_a_directory_error() {
    for path in ["/download", "/download_audio", "/download_subtitles", "/open_videos_folder", "/open_notes_folder"] {
        let mut w = world();
        w.refuse_directories = true;
        let mut index = NoteIndex::new();
        let r = request(Method::Post, path, None, b"https://youtu.be/x");
        let (response, failure) = serve(&mut w, &r, &config(), &mut index, &today());
        assert_eq!(response.status, 500);
        assert_eq!(response.body, "Error getting dated dir");
        assert_eq!(failure, Some(ServiceError::Directory));
        assert!(w.runs.is_empty());
    }
}

#[test]
fn body_that_is_no_text_is_refused() {
    for path in ["/download", "/download_audio", "/download_subtitles", "/open_videos_folder", "/open_notes_folder"] {
        let mut w = world();
        let mut index = NoteIndex::new();
        let r = request(Method::Post, path, None, &[b'h', 0xff]);
        let (response, failure) = serve(&mut w, &r, &config(), &mut index, &today());
        assert_eq!(response.status, 400);
        assert_eq!(response.body, "Invalid request body");
        assert_eq!(failure, Some(ServiceError::Decode));
        assert!(w.effects.is_empty());
    }
}

#[test]
fn open_videos_folder_shows_todays_downloads() {
    let mut w = world();
    let mut index = NoteIndex::new();
    let r = request(Method::Post, "/open_videos_folder", None, b"https://youtu.be/x");
    let (response, failure) = serve(&mut w, &r, &config(), &mut index, &today());
    assert_eq!(response.status, 200);
    assert_eq!(response.body, "/abs//downloads/2024/03/07");
    assert_eq!(failure, None);
    assert_eq!(
        w.effects,
        vec![
            Effect::CreateDirectory { path: "/downloads/2024/03/07".to_string() },
            Effect::ResolveAbsolute { path: "/downloads/2024/03/07".to_string() },
            Effect::Run {
                command: open_folder("/abs//downloads/2024/03/07", "/downloads/2024/03/07")
            },
        ]
    );
}

#[test]
fn open_notes_folder_shows_todays_notes() {
    let mut w = world();
    let mut index = NoteIndex::new();
    let r = request(Method::Post, "/open_notes_folder", None, b"");
    let (response, failure) = serve(&mut w, &r, &config(), &mut index, &today());
    assert_eq!(response.status, 200);
    assert_eq!(response.body, "/abs//notes/2024/03/07");
    assert_eq!(failure, None);
    assert_eq!(w.runs, vec![open_folder("/abs//notes/2024/03/07", "/notes/2024/03/07")]);
}

#[test]
fn folder_that_cannot_be_resolved_or_opened_fails() {
    let mut w = world();
    w.refuse_resolution = true;
    let mut index = NoteIndex::new();
    let r = request(Method::Post, "/open_notes_folder", None, b"");
    let (response, failure) = serve(&mut w, &r, &config(), &mut index, &today());
    assert_eq!(response.status, 500);
    assert_eq!(response.body, "Error resolving folder");
    assert_eq!(failure, Some(ServiceError::Io));
    assert!(w.runs.is_empty());
    let mut w = world();
    w.tools.push(("explorer.exe".to_string(), exited(false, "", "no window")));
    let (response, failure) = serve(&mut w, &r, &config(), &mut index, &today());
    assert_eq!(response.status, 500);
    assert_eq!(response.body, "download failed");
    assert_eq!(failure, Some(ServiceError::ExternalTool { diagnostic: "no window".to_string() }));
}

#[test]
fn an_unexpected_outcome_counts_as_a_failure() {
    let cfg = config();
    let mut index = NoteIndex::new();
    let step = resume(Pending::NoteWritten, Outcome::Missing, &cfg, &mut index);
    match step {
        Step::Reply { response, failure } => {
            assert_eq!(response.status, 500);
            assert_eq!(response.headers, cors());
            assert_eq!(failure, Some(ServiceError::Io));
        }
        Step::Perform { .. } => panic!("a failed write ends the request"),
    }
    let pending = Pending::FilenameQuery {
        mode: DownloadMode::Video,
        url: "u".to_string(),
        dir: "d".to_string(),
    };
    let step = resume(pending, Outcome::Done, &cfg, &mut index);
    assert!(matches!(step, Step::Reply { .. }));
}

#[test]
fn handle_reads_the_clock() {
    let cfg = config();
    let index = NoteIndex::new();
    let r = request(Method::Get, "/healthcheck", None, b"");
    match handle(&r, &cfg, &index) {
        Step::Reply { response, failure } => {
            assert_eq!(response.status, 200);
            assert_eq!(response.headers, cors());
            assert_eq!(failure, None);
        }
        Step::Perform { .. } => panic!("a healthcheck has no effect"),
    }
    match handle(&set_note("abc", "hello"), &cfg, &index) {
        Step::Perform { effect, pending } => match (effect, pending) {
            (Effect::CreateDirectory { path }, Pending::NoteDirectory { id, content, date }) => {
                assert!(date.is_valid());
                assert_eq!(path, dated_dir_on("/notes", &date));
                assert_eq!(id, "abc");
                assert_eq!(content, Some("hello".to_string()));
            }
            _ => panic!("a new note first needs its directory"),
        },
        Step::Reply { .. } => panic!("a new note first needs its directory"),
    }
}
