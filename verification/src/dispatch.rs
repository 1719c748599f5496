//! The dispatcher: from a request to its first step, and from the outcome
//! of each effect to the next step, until a response ends the request.
//!
//! The rules are stated once, over plain values, by [`begin_step`] and
//! [`resume_step`]; [`handle_on`] and [`resume`] compute what those state.

use crate::config::{Configuration, ConfigurationView};
use crate::dates::{dated_dir_on, dated_dir_text, local_today, CalendarDate};
use crate::effects::{Effect, EffectView, Outcome, OutcomeView, ServiceError, ServiceErrorView};
use crate::http::{
    carries_cors, cors_headers, lemma_fixed_headers_carry_cors, respond, respond_text, route,
    route_of, Request, RequestView, Route,
};
use crate::notes::{
    decoded_note, get_path_for_note_id, note_json, note_json_text, parse_note, resolved_index,
    resolved_path, Note, NoteIndex, NoteView,
};
use crate::protocol::{fail, perform, succeed, Pending, PendingView, Step, StepView};
use crate::query::{
    note_id_from_query, note_id_text, search_term_from_query, search_term_text,
};
use crate::text::{append_strings, lossy_text, utf8_lossy_text, utf8_strict};
use crate::tools::{
    failure_of, filename_from_output, filename_query, filename_query_command, folder_command,
    launch, launch_command, open_folder, queried_filename, search, search_command, search_hits,
    search_hits_from_output, tool_failure, DownloadMode,
};
use vstd::prelude::*;
use vstd::string::*;
use vstd::utf8::{decode_utf8, encode_utf8, valid_utf8};

verus! {

/// A text as `{:?}` writes a string: between double quotes, with the
/// escapes of Rust's `Debug`.
pub uninterp spec fn debug_string_text(text: Seq<char>) -> Seq<char>;

/// Formats the text with `{:?}`, that is through `Debug` for `str`. The
/// result is a function of the text alone.
#[verifier::external_body]
fn debug_string(text: &str) -> (r: String)
    ensures
        r@ == debug_string_text(text@),
{
    format!("{:?}", text)
}

/// The texts of a list, each as `{:?}` writes it, in order, with a comma
/// and a space between one and the next.
pub open spec fn debug_items_text(items: Seq<Seq<char>>) -> Seq<char>
    decreases items.len(),
{
    if items.len() == 0 {
        Seq::<char>::empty()
    } else if items.len() == 1 {
        debug_string_text(items[0])
    } else {
        debug_items_text(items.drop_last()) + ", "@ + debug_string_text(items.last())
    }
}

/// A list of texts as `{:?}` writes a vector of strings: the items between
/// square brackets.
pub open spec fn debug_list_text(items: Seq<Seq<char>>) -> Seq<char> {
    "["@ + debug_items_text(items) + "]"@
}

/// Writes a list of texts as `{:?}` writes a vector of strings.
pub fn debug_list(items: &Vec<String>) -> (r: String)
    ensures
        r@ == debug_list_text(items.deep_view()),
{
    let mut out = String::from_str("[");
    let mut i: usize = 0;
    assert(items.deep_view().take(0).len() == 0);
    assert(out@ =~= "["@ + debug_items_text(items.deep_view().take(0)));
    while i < items.len()
        invariant
            i <= items.len(),
            out@ == "["@ + debug_items_text(items.deep_view().take(i as int)),
        decreases items.len() - i,
    {
        let ghost done = items.deep_view().take(i as int);
        let ghost more = items.deep_view().take(i + 1);
        assert(more.drop_last() =~= done);
        assert(more.last() == items@[i as int]@);
        if i > 0 {
            out.append(", ");
        }
        let item = debug_string(items[i].as_str());
        out.append(item.as_str());
        assert(out@ =~= "["@ + debug_items_text(more));
        i = i + 1;
    }
    assert(items.deep_view().take(items.len() as int) =~= items.deep_view());
    out.append("]");
    out
}

/// The failure of a helper program that did not run at all.
pub open spec fn tool_did_not_run() -> ServiceErrorView {
    ServiceErrorView::ExternalTool { diagnostic: Seq::<char>::empty() }
}

/// The outcome is the exit of a process with status zero.
pub open spec fn exited_well(outcome: OutcomeView) -> bool {
    outcome matches OutcomeView::Exited { output } && output.success
}

/// What a process that did not exit well reports: its own words if it ran,
/// nothing if it did not.
pub open spec fn tool_failure_of(outcome: OutcomeView) -> ServiceErrorView {
    match outcome {
        OutcomeView::Exited { output } => tool_failure(output),
        _ => tool_did_not_run(),
    }
}

/// The step that stores or reads a note whose file is at `path`: with a
/// content, write it as UTF-8; without one, read the file.
pub open spec fn note_io_step(id: Seq<char>, content: Option<Seq<char>>, path: Seq<char>) -> StepView {
    match content {
        Some(text) => perform(
            EffectView::WriteFile { path, bytes: encode_utf8(text) },
            PendingView::NoteWritten,
        ),
        None => perform(EffectView::ReadFile { path }, PendingView::NoteRead { id, path }),
    }
}

/// The first step for a note. A note on record goes straight to its file,
/// without any other work on the file system. One that is not on record
/// first gets the directory of `today` created under the notes directory.
pub open spec fn note_step(
    id: Seq<char>,
    content: Option<Seq<char>>,
    notes_dir: Seq<char>,
    index: Map<Seq<char>, Seq<char>>,
    today: CalendarDate,
) -> StepView {
    if index.contains_key(id) {
        note_io_step(id, content, index[id])
    } else {
        perform(
            EffectView::CreateDirectory { path: dated_dir_text(notes_dir, today) },
            PendingView::NoteDirectory { id, content, date: today },
        )
    }
}

/// The step of a search that has started `next` of the directories and
/// found `found` so far: search the next directory, or, when none is left,
/// answer with what was found, and with status 404 if that is nothing.
pub open spec fn search_step(
    term: Seq<char>,
    next: nat,
    found: Seq<Seq<char>>,
    dirs: Seq<Seq<char>>,
) -> StepView {
    if next < dirs.len() {
        perform(
            EffectView::Run { command: search_command(term, dirs[next as int]) },
            PendingView::Searching { term, next: next + 1, found },
        )
    } else if found.len() == 0 {
        succeed(404, "No results found"@)
    } else {
        succeed(200, "Results: "@ + debug_list_text(found))
    }
}

/// The first step of a download: the body is the URL, and the directory of
/// `today` under the downloads directory is created for it. A body that is
/// not text is refused.
pub open spec fn download_begin_step(
    mode: DownloadMode,
    body: Seq<u8>,
    downloads_dir: Seq<char>,
    today: CalendarDate,
) -> StepView {
    if valid_utf8(body) {
        perform(
            EffectView::CreateDirectory { path: dated_dir_text(downloads_dir, today) },
            PendingView::DownloadDirectory {
                mode,
                url: decode_utf8(body),
                dir: dated_dir_text(downloads_dir, today),
            },
        )
    } else {
        fail(400, "Invalid request body"@, ServiceErrorView::Decode)
    }
}

/// The first step of showing a folder: the directory of `today` under
/// `base` is created. The body plays no part, but one that is not text is
/// refused.
pub open spec fn folder_begin_step(body: Seq<u8>, base: Seq<char>, today: CalendarDate) -> StepView {
    if valid_utf8(body) {
        perform(
            EffectView::CreateDirectory { path: dated_dir_text(base, today) },
            PendingView::FolderDirectory { dir: dated_dir_text(base, today) },
        )
    } else {
        fail(400, "Invalid request body"@, ServiceErrorView::Decode)
    }
}

/// The first step of a request, given the settings, the note index and the
/// local date.
pub open spec fn begin_step(
    request: RequestView,
    config: ConfigurationView,
    index: Map<Seq<char>, Seq<char>>,
    today: CalendarDate,
) -> StepView {
    match route_of(request.method, request.path) {
        Route::Preflight => succeed(200, Seq::<char>::empty()),
        Route::Healthcheck => succeed(200, Seq::<char>::empty()),
        Route::SetNote => match decoded_note(request.body) {
            Some(note) => note_step(note.id, Some(note.content), config.notes_dir, index, today),
            None => fail(400, "Invalid note"@, ServiceErrorView::Decode),
        },
        Route::GetNote => match note_id_text(request.query) {
            Some(id) => note_step(id, None, config.notes_dir, index, today),
            None => fail(400, "Missing id parameter"@, ServiceErrorView::Decode),
        },
        Route::Exists => match search_term_text(request.query) {
            Some(term) => search_step(term, 0, Seq::<Seq<char>>::empty(), config.search_dirs),
            None => fail(400, "Missing search parameter"@, ServiceErrorView::Decode),
        },
        Route::Download => download_begin_step(
            DownloadMode::Video,
            request.body,
            config.downloads_dir,
            today,
        ),
        Route::DownloadAudio => download_begin_step(
            DownloadMode::Audio,
            request.body,
            config.downloads_dir,
            today,
        ),
        Route::DownloadSubtitles => download_begin_step(
            DownloadMode::SubtitlesOnly,
            request.body,
            config.downloads_dir,
            today,
        ),
        Route::OpenVideosFolder => folder_begin_step(request.body, config.downloads_dir, today),
        Route::OpenNotesFolder => folder_begin_step(request.body, config.notes_dir, today),
        Route::NotFound => succeed(404, Seq::<char>::empty()),
    }
}

/// What a finished search adds to what was found: the paths it printed if
/// it exited well, and nothing otherwise.
pub open spec fn found_after(found: Seq<Seq<char>>, outcome: OutcomeView) -> Seq<Seq<char>> {
    match outcome {
        OutcomeView::Exited { output } => match search_hits(output) {
            Ok(hits) => found + hits,
            Err(_) => found,
        },
        _ => found,
    }
}

/// The step after the directory of a download was asked for: with the
/// directory there, ask the tool for the file name, or, for subtitles,
/// launch at once.
pub open spec fn after_download_directory(
    mode: DownloadMode,
    url: Seq<char>,
    dir: Seq<char>,
    outcome: OutcomeView,
) -> StepView {
    if outcome is Done {
        match filename_query_command(mode, url) {
            Some(command) => perform(
                EffectView::Run { command },
                PendingView::FilenameQuery { mode, url, dir },
            ),
            None => perform(
                EffectView::Run { command: launch_command(mode, url, dir) },
                PendingView::Launched { mode, filename: Seq::<char>::empty() },
            ),
        }
    } else {
        fail(500, "Error getting dated dir"@, ServiceErrorView::Directory)
    }
}

/// The step after the file name was asked for: with a name, launch the
/// download; without one the request fails with the tool's own words and
/// nothing is launched.
pub open spec fn after_filename_query(
    mode: DownloadMode,
    url: Seq<char>,
    dir: Seq<char>,
    outcome: OutcomeView,
) -> StepView {
    match outcome {
        OutcomeView::Exited { output } => match queried_filename(output) {
            Ok(filename) => perform(
                EffectView::Run { command: launch_command(mode, url, dir) },
                PendingView::Launched { mode, filename },
            ),
            Err(error) => fail(500, utf8_lossy_text(output.stderr), error),
        },
        _ => fail(500, "Failed to execute command"@, tool_did_not_run()),
    }
}

/// The step after the launch: the file name, or for subtitles a fixed
/// sentence, if the launcher exited well. Whether the download itself
/// succeeds is not waited for.
pub open spec fn after_launch(mode: DownloadMode, filename: Seq<char>, outcome: OutcomeView) -> StepView {
    if exited_well(outcome) {
        if mode == DownloadMode::SubtitlesOnly {
            succeed(200, "Subtitles download started"@)
        } else {
            succeed(200, filename)
        }
    } else if mode == DownloadMode::SubtitlesOnly {
        fail(500, "Subtitles download failed"@, tool_failure_of(outcome))
    } else {
        fail(500, "download failed"@, tool_failure_of(outcome))
    }
}

/// The next step of a request that waited in `pending`, given the outcome
/// of the effect it waited for.
pub open spec fn resume_step(
    pending: PendingView,
    outcome: OutcomeView,
    config: ConfigurationView,
    index: Map<Seq<char>, Seq<char>>,
) -> StepView {
    match pending {
        PendingView::NoteDirectory { id, content, date } => if outcome is Done {
            note_io_step(id, content, resolved_path(index, id, config.notes_dir, date))
        } else {
            fail(500, "Error getting path for note id"@, ServiceErrorView::Directory)
        },
        PendingView::NoteWritten => if outcome is Done {
            succeed(200, "Note set"@)
        } else {
            fail(500, "Error writing note"@, ServiceErrorView::Io)
        },
        PendingView::NoteRead { id, path } => match outcome {
            OutcomeView::Content { bytes } => succeed(
                200,
                note_json_text(NoteView { id, content: utf8_lossy_text(bytes) }),
            ),
            OutcomeView::Missing => perform(
                EffectView::CreateEmptyFile { path },
                PendingView::NoteCreated { id },
            ),
            _ => fail(500, "Error reading note"@, ServiceErrorView::Io),
        },
        PendingView::NoteCreated { id } => if outcome is Done {
            succeed(200, note_json_text(NoteView { id, content: Seq::<char>::empty() }))
        } else {
            fail(500, "Error creating note"@, ServiceErrorView::Io)
        },
        PendingView::Searching { term, next, found } => search_step(
            term,
            next,
            found_after(found, outcome),
            config.search_dirs,
        ),
        PendingView::DownloadDirectory { mode, url, dir } => after_download_directory(
            mode,
            url,
            dir,
            outcome,
        ),
        PendingView::FilenameQuery { mode, url, dir } => after_filename_query(
            mode,
            url,
            dir,
            outcome,
        ),
        PendingView::Launched { mode, filename } => after_launch(mode, filename, outcome),
        PendingView::FolderDirectory { dir } => if outcome is Done {
            perform(EffectView::ResolveAbsolute { path: dir }, PendingView::FolderResolved { dir })
        } else {
            fail(500, "Error getting dated dir"@, ServiceErrorView::Directory)
        },
        PendingView::FolderResolved { dir } => match outcome {
            OutcomeView::Absolute { path } => perform(
                EffectView::Run { command: folder_command(path, dir) },
                PendingView::FolderOpened { absolute: path },
            ),
            _ => fail(500, "Error resolving folder"@, ServiceErrorView::Io),
        },
        PendingView::FolderOpened { absolute } => if exited_well(outcome) {
            succeed(200, absolute)
        } else {
            fail(500, "download failed"@, tool_failure_of(outcome))
        },
    }
}

/// The note index after a request that waited in `pending` is resumed. It
/// changes in one place only: when the directory for a note that was not
/// on record is there, the note's path is entered, unless the note came on
/// record in the meantime.
pub open spec fn resumed_index(
    pending: PendingView,
    outcome: OutcomeView,
    config: ConfigurationView,
    index: Map<Seq<char>, Seq<char>>,
) -> Map<Seq<char>, Seq<char>> {
    match pending {
        PendingView::NoteDirectory { id, content, date } => if outcome is Done {
            resolved_index(index, id, config.notes_dir, date)
        } else {
            index
        },
        _ => index,
    }
}

/// A note that is on record is stored or read at the path on record,
/// without any directory being created: the date plays no part.
pub proof fn lemma_note_on_record_needs_no_directory(
    id: Seq<char>,
    content: Option<Seq<char>>,
    notes_dir: Seq<char>,
    index: Map<Seq<char>, Seq<char>>,
    today: CalendarDate,
)
    requires
        index.contains_key(id),
    ensures
        note_step(id, content, notes_dir, index, today) == note_io_step(id, content, index[id]),
        !(note_step(id, content, notes_dir, index, today)->effect is CreateDirectory),
{
}

/// The effect is the launch of a download.
pub open spec fn is_launch(effect: EffectView) -> bool {
    exists|mode: DownloadMode, url: Seq<char>, dir: Seq<char>|
        effect == (EffectView::Run { command: #[trigger] launch_command(mode, url, dir) })
}

/// A filename query that did not exit well ends the request: the step is a
/// response with status 500 that names the failure, so no launch follows.
pub proof fn lemma_failed_query_launches_nothing(
    mode: DownloadMode,
    url: Seq<char>,
    dir: Seq<char>,
    outcome: OutcomeView,
    config: ConfigurationView,
    index: Map<Seq<char>, Seq<char>>,
)
    requires
        !exited_well(outcome),
    ensures
        resume_step(PendingView::FilenameQuery { mode, url, dir }, outcome, config, index)
            matches StepView::Reply { response, failure } && response.status == 500
            && failure is Some,
{
}

/// No request begins with a launch.
pub proof fn lemma_no_request_begins_with_a_launch(
    request: RequestView,
    config: ConfigurationView,
    index: Map<Seq<char>, Seq<char>>,
    today: CalendarDate,
)
    ensures
        begin_step(request, config, index, today) matches StepView::Perform { effect, pending }
            ==> !is_launch(effect),
{
    match begin_step(request, config, index, today) {
        StepView::Perform { effect, pending } => {
            assert forall|mode: DownloadMode, url: Seq<char>, dir: Seq<char>|
                effect != (EffectView::Run {
                    command: #[trigger] launch_command(mode, url, dir),
                }) by {
                assert(launch_command(mode, url, dir).args.len() == 5);
                match effect {
                    EffectView::Run { command } => {
                        assert(command.args.len() == 2);
                    },
                    _ => {},
                }
            }
        },
        _ => {},
    }
}

/// The launch is due: a filename query has just exited well, or the
/// directory for a download of subtitles, which has no filename query, is
/// there; and `effect` is the launch for the mode, the URL and the
/// directory of the request.
pub open spec fn launch_is_due(pending: PendingView, outcome: OutcomeView, effect: EffectView) -> bool {
    match pending {
        PendingView::FilenameQuery { mode, url, dir } => exited_well(outcome) && effect
            == (EffectView::Run { command: launch_command(mode, url, dir) }),
        PendingView::DownloadDirectory { mode, url, dir } => mode == DownloadMode::SubtitlesOnly
            && outcome is Done && effect == (EffectView::Run {
            command: launch_command(mode, url, dir),
        }),
        _ => false,
    }
}

/// A launch is performed only when it is due: never before the filename
/// query of a download has exited well, and never in any other state.
pub proof fn lemma_launch_follows_query(
    pending: PendingView,
    outcome: OutcomeView,
    config: ConfigurationView,
    index: Map<Seq<char>, Seq<char>>,
)
    ensures
        ({
            let step = resume_step(pending, outcome, config, index);
            step is Perform && is_launch(step->effect) ==> launch_is_due(
                pending,
                outcome,
                step->effect,
            )
        }),
{
    match resume_step(pending, outcome, config, index) {
        StepView::Perform { effect, pending: next } => {
            if is_launch(effect) {
                let (m, u, d) = choose|mode: DownloadMode, url: Seq<char>, dir: Seq<char>|
                    effect == (EffectView::Run {
                        command: #[trigger] launch_command(mode, url, dir),
                    });
                assert(launch_command(m, u, d).args.len() == 5);
                match pending {
                    PendingView::Searching { term, next, found } => {
                        assert(search_command(term, config.search_dirs[next as int]).args.len()
                            == 2);
                    },
                    PendingView::DownloadDirectory { mode, url, dir } => {
                        if mode != DownloadMode::SubtitlesOnly {
                            assert(filename_query_command(mode, url)->0.args.len() >= 7);
                        }
                    },
                    PendingView::FolderResolved { dir } => {
                        match outcome {
                            OutcomeView::Absolute { path } => {
                                assert(folder_command(path, dir).args.len() == 1);
                            },
                            _ => {},
                        }
                    },
                    _ => {},
                }
            }
        },
        _ => {},
    }
}

/// The file name that a download answers with is read from what the
/// filename query printed and from nothing else: two queries that printed
/// the same and exited well yield the same file name.
pub proof fn lemma_filename_comes_from_the_output(first: OutcomeView, second: OutcomeView)
    requires
        first matches OutcomeView::Exited { output: a } && second matches OutcomeView::Exited {
            output: b,
        } && a.success && b.success && a.stdout == b.stdout,
    ensures
        queried_filename(first->output) == queried_filename(second->output),
        queried_filename(first->output) is Ok,
{
}

/// Reading a note whose file is missing creates the file empty, at the
/// note's path, and then answers with the note's id and an empty content.
pub proof fn lemma_missing_note_reads_empty(
    id: Seq<char>,
    path: Seq<char>,
    config: ConfigurationView,
    index: Map<Seq<char>, Seq<char>>,
)
    ensures
        resume_step(PendingView::NoteRead { id, path }, OutcomeView::Missing, config, index)
            == perform(EffectView::CreateEmptyFile { path }, PendingView::NoteCreated { id }),
        resume_step(PendingView::NoteCreated { id }, OutcomeView::Done, config, index) == succeed(
            200,
            note_json_text(NoteView { id, content: Seq::<char>::empty() }),
        ),
{
}

/// Ends a request without a failure.
fn done(status: u16, body: String) -> (step: Step)
    ensures
        step@ == succeed(status as int, body@),
{
    Step::Reply { response: respond(status, body), failure: None }
}

/// Ends a request with a failure.
fn failed(status: u16, body: &str, error: ServiceError) -> (step: Step)
    ensures
        step@ == fail(status as int, body@, error@),
{
    Step::Reply { response: respond_text(status, body), failure: Some(error) }
}

/// What a process that did not exit well reports.
fn failure_of_outcome(outcome: &Outcome) -> (e: ServiceError)
    ensures
        e@ == tool_failure_of(outcome@),
{
    match outcome {
        Outcome::Exited { output } => failure_of(output),
        _ => ServiceError::ExternalTool { diagnostic: String::new() },
    }
}

/// Tells whether the outcome is the exit of a process with status zero.
fn outcome_exited_well(outcome: &Outcome) -> (r: bool)
    ensures
        r == exited_well(outcome@),
{
    match outcome {
        Outcome::Exited { output } => output.success,
        _ => false,
    }
}

/// Tells whether the outcome is `Done`.
fn outcome_is_done(outcome: &Outcome) -> (r: bool)
    ensures
        r == (outcome@ is Done),
{
    match outcome {
        Outcome::Done => true,
        _ => false,
    }
}

/// The step that stores or reads a note whose file is at `path`.
fn note_io(id: String, content: Option<String>, path: String) -> (step: Step)
    ensures
        step@ == note_io_step(id@, content.deep_view(), path@),
{
    match content {
        Some(text) => {
            let bytes = text.as_str().as_bytes_vec();
            Step::Perform { effect: Effect::WriteFile { path, bytes }, pending: Pending::NoteWritten }
        },
        None => {
            let target = path.clone();
            Step::Perform {
                effect: Effect::ReadFile { path: target },
                pending: Pending::NoteRead { id, path },
            }
        },
    }
}

/// The first step for a note.
fn note_begin(
    id: String,
    content: Option<String>,
    notes_dir: &str,
    index: &NoteIndex,
    today: &CalendarDate,
) -> (step: Step)
    ensures
        step@ == note_step(id@, content.deep_view(), notes_dir@, index@, *today),
{
    match index.lookup(id.as_str()) {
        Some(path) => note_io(id, content, path),
        None => {
            let path = dated_dir_on(notes_dir, today);
            Step::Perform {
                effect: Effect::CreateDirectory { path },
                pending: Pending::NoteDirectory { id, content, date: *today },
            }
        },
    }
}

/// The step of a search that has started `next` of the directories.
fn search_next(term: String, next: usize, found: Vec<String>, dirs: &Vec<String>) -> (step: Step)
    ensures
        step@ == search_step(term@, next as nat, found.deep_view(), dirs.deep_view()),
{
    if next < dirs.len() {
        let command = search(term.as_str(), dirs[next].as_str());
        Step::Perform {
            effect: Effect::Run { command },
            pending: Pending::Searching { term, next: next + 1, found },
        }
    } else if found.len() == 0 {
        done(404, String::from_str("No results found"))
    } else {
        let mut body = String::from_str("Results: ");
        let list = debug_list(&found);
        body.append(list.as_str());
        done(200, body)
    }
}

/// The first step of a download.
fn download_begin(mode: DownloadMode, body: &[u8], downloads_dir: &str, today: &CalendarDate) -> (step:
    Step)
    ensures
        step@ == download_begin_step(mode, body@, downloads_dir@, *today),
{
    match utf8_strict(body) {
        Some(url) => {
            let dir = dated_dir_on(downloads_dir, today);
            let path = dir.clone();
            Step::Perform {
                effect: Effect::CreateDirectory { path },
                pending: Pending::DownloadDirectory { mode, url, dir },
            }
        },
        None => failed(400, "Invalid request body", ServiceError::Decode),
    }
}

/// The first step of showing a folder.
fn folder_begin(body: &[u8], base: &str, today: &CalendarDate) -> (step: Step)
    ensures
        step@ == folder_begin_step(body@, base@, *today),
{
    match utf8_strict(body) {
        Some(_) => {
            let dir = dated_dir_on(base, today);
            let path = dir.clone();
            Step::Perform {
                effect: Effect::CreateDirectory { path },
                pending: Pending::FolderDirectory { dir },
            }
        },
        None => failed(400, "Invalid request body", ServiceError::Decode),
    }
}

/// The response of a step that ends a request has the three fixed headers
/// and no others.
pub open spec fn reply_has_fixed_headers(step: StepView) -> bool {
    step matches StepView::Reply { response, failure } ==> response.headers == cors_headers()
}

/// Every response that begins and ends a request carries the three fixed
/// headers, whatever the request, the settings, the index and the date.
pub proof fn lemma_begin_step_carries_cors(
    request: RequestView,
    config: ConfigurationView,
    index: Map<Seq<char>, Seq<char>>,
    today: CalendarDate,
)
    ensures
        begin_step(request, config, index, today) matches StepView::Reply { response, failure }
            ==> carries_cors(response),
{
    let step = begin_step(request, config, index, today);
    assert(reply_has_fixed_headers(step));
    match step {
        StepView::Reply { response, failure } => {
            lemma_fixed_headers_carry_cors(response);
        },
        _ => {},
    }
}

/// Every response that ends a resumed request carries the three fixed
/// headers, whatever state the request waited in and whatever the outcome.
pub proof fn lemma_resume_step_carries_cors(
    pending: PendingView,
    outcome: OutcomeView,
    config: ConfigurationView,
    index: Map<Seq<char>, Seq<char>>,
)
    ensures
        resume_step(pending, outcome, config, index) matches StepView::Reply { response, failure }
            ==> carries_cors(response),
{
    let step = resume_step(pending, outcome, config, index);
    assert(reply_has_fixed_headers(step));
    match step {
        StepView::Reply { response, failure } => {
            lemma_fixed_headers_carry_cors(response);
        },
        _ => {},
    }
}

/// The first step of a request on the date `today`.
///
/// `OPTIONS` on any path and `GET /healthcheck` are answered at once with
/// status 200, an unknown route with 404. A body, an id or a search text
/// that cannot be read is answered with 400. Every other request starts
/// with an effect. A response, whatever its status, carries the three
/// fixed headers.
pub fn handle_on(
    request: &Request,
    config: &Configuration,
    index: &NoteIndex,
    today: &CalendarDate,
) -> (step: Step)
    ensures
        step@ == begin_step(request@, config@, index@, *today),
        step matches Step::Reply { response, failure } ==> carries_cors(response@),
{
    let step = match route(request.method, request.path.as_str()) {
        Route::Preflight => done(200, String::new()),
        Route::Healthcheck => done(200, String::new()),
        Route::SetNote => match parse_note(request.body.as_slice()) {
            Ok(note) => {
                let Note { id, content } = note;
                note_begin(id, Some(content), config.notes_dir.as_str(), index, today)
            },
            Err(error) => failed(400, "Invalid note", error),
        },
        Route::GetNote => match note_id_from_query(&request.query) {
            Some(id) => note_begin(id, None, config.notes_dir.as_str(), index, today),
            None => failed(400, "Missing id parameter", ServiceError::Decode),
        },
        Route::Exists => match search_term_from_query(&request.query) {
            Some(term) => {
                let found: Vec<String> = Vec::new();
                assert(found.deep_view() =~= Seq::<Seq<char>>::empty());
                search_next(term, 0, found, &config.search_dirs)
            },
            None => failed(400, "Missing search parameter", ServiceError::Decode),
        },
        Route::Download => download_begin(
            DownloadMode::Video,
            request.body.as_slice(),
            config.downloads_dir.as_str(),
            today,
        ),
        Route::DownloadAudio => download_begin(
            DownloadMode::Audio,
            request.body.as_slice(),
            config.downloads_dir.as_str(),
            today,
        ),
        Route::DownloadSubtitles => download_begin(
            DownloadMode::SubtitlesOnly,
            request.body.as_slice(),
            config.downloads_dir.as_str(),
            today,
        ),
        Route::OpenVideosFolder => folder_begin(
            request.body.as_slice(),
            config.downloads_dir.as_str(),
            today,
        ),
        Route::OpenNotesFolder => folder_begin(
            request.body.as_slice(),
            config.notes_dir.as_str(),
            today,
        ),
        Route::NotFound => done(404, String::new()),
    };
    proof {
        lemma_begin_step_carries_cors(request@, config@, index@, *today);
    }
    step
}

/// The response to a read of the note `id` whose file held `bytes`: the
/// note in its JSON form. Bytes that are not UTF-8 are read with
/// replacement characters; the bytes that a text was stored as give that
/// text back.
pub fn note_read_reply(id: String, bytes: &[u8]) -> (step: Step)
    ensures
        step@ == succeed(200, note_json_text(NoteView { id: id@, content: utf8_lossy_text(bytes@) })),
        forall|text: Seq<char>|
            bytes@ == encode_utf8(text) ==> step@ == succeed(
                200,
                note_json_text(NoteView { id: id@, content: text }),
            ),
{
    let content = lossy_text(bytes);
    let note = Note { id, content };
    done(200, note_json(&note))
}

/// The first step of a request on the local date of the moment. The date
/// is read from the clock once; the step is the one that [`begin_step`]
/// states for that date.
pub fn handle(request: &Request, config: &Configuration, index: &NoteIndex) -> (step: Step)
    ensures
        exists|today: CalendarDate|
            today.valid() && step@ == #[trigger] begin_step(request@, config@, index@, today),
        step matches Step::Reply { response, failure } ==> carries_cors(response@),
{
    let today = local_today();
    handle_on(request, config, index, &today)
}

/// The step after the directory of a download was asked for.
fn resume_download_directory(mode: DownloadMode, url: String, dir: String, outcome: &Outcome) -> (step:
    Step)
    ensures
        step@ == after_download_directory(mode, url@, dir@, outcome@),
{
    if outcome_is_done(outcome) {
        match filename_query(mode, url.as_str()) {
            Some(command) => Step::Perform {
                effect: Effect::Run { command },
                pending: Pending::FilenameQuery { mode, url, dir },
            },
            None => {
                let command = launch(mode, url.as_str(), dir.as_str());
                Step::Perform {
                    effect: Effect::Run { command },
                    pending: Pending::Launched { mode, filename: String::new() },
                }
            },
        }
    } else {
        failed(500, "Error getting dated dir", ServiceError::Directory)
    }
}

/// The step after the file name was asked for.
fn resume_filename_query(mode: DownloadMode, url: String, dir: String, outcome: &Outcome) -> (step:
    Step)
    ensures
        step@ == after_filename_query(mode, url@, dir@, outcome@),
{
    match outcome {
        Outcome::Exited { output } => match filename_from_output(output) {
            Ok(filename) => {
                let command = launch(mode, url.as_str(), dir.as_str());
                Step::Perform {
                    effect: Effect::Run { command },
                    pending: Pending::Launched { mode, filename },
                }
            },
            Err(error) => {
                let body = lossy_text(output.stderr.as_slice());
                Step::Reply { response: respond(500, body), failure: Some(error) }
            },
        },
        _ => failed(
            500,
            "Failed to execute command",
            ServiceError::ExternalTool { diagnostic: String::new() },
        ),
    }
}

/// The step after the launch.
fn resume_launch(mode: DownloadMode, filename: String, outcome: &Outcome) -> (step: Step)
    ensures
        step@ == after_launch(mode, filename@, outcome@),
{
    let subtitles = match mode {
        DownloadMode::SubtitlesOnly => true,
        _ => false,
    };
    if outcome_exited_well(outcome) {
        if subtitles {
            done(200, String::from_str("Subtitles download started"))
        } else {
            done(200, filename)
        }
    } else if subtitles {
        failed(500, "Subtitles download failed", failure_of_outcome(outcome))
    } else {
        failed(500, "download failed", failure_of_outcome(outcome))
    }
}

/// What was found after one more search has finished.
fn found_with(found: Vec<String>, outcome: &Outcome) -> (r: Vec<String>)
    ensures
        r.deep_view() == found_after(found.deep_view(), outcome@),
{
    match outcome {
        Outcome::Exited { output } => match search_hits_from_output(output) {
            Ok(hits) => {
                let mut all = found;
                append_strings(&mut all, &hits);
                all
            },
            Err(_) => found,
        },
        _ => found,
    }
}

/// The next step of a request that waited in `pending`, given the outcome
/// of the effect it waited for.
///
/// The note index changes in one case only: the directory for a note that
/// was not on record is there. Then the note's path is resolved and kept;
/// a path that came on record in the meantime stays. A response, whatever
/// its status, carries the three fixed headers.
pub fn resume(pending: Pending, outcome: Outcome, config: &Configuration, index: &mut NoteIndex) -> (step:
    Step)
    ensures
        step@ == resume_step(pending@, outcome@, config@, old(index)@),
        final(index)@ == resumed_index(pending@, outcome@, config@, old(index)@),
        step matches Step::Reply { response, failure } ==> carries_cors(response@),
        forall|text: Seq<char>|
            pending@ is NoteRead && outcome@ == (OutcomeView::Content { bytes: encode_utf8(text) })
                ==> step@ == succeed(
                200,
                note_json_text(NoteView { id: pending@->NoteRead_id, content: text }),
            ),
{
    proof {
        lemma_resume_step_carries_cors(pending@, outcome@, config@, index@);
    }
    match pending {
        Pending::NoteDirectory { id, content, date } => {
            if outcome_is_done(&outcome) {
                let path = get_path_for_note_id(
                    id.as_str(),
                    config.notes_dir.as_str(),
                    &date,
                    index,
                );
                note_io(id, content, path)
            } else {
                failed(500, "Error getting path for note id", ServiceError::Directory)
            }
        },
        Pending::NoteWritten => {
            if outcome_is_done(&outcome) {
                done(200, String::from_str("Note set"))
            } else {
                failed(500, "Error writing note", ServiceError::Io)
            }
        },
        Pending::NoteRead { id, path } => match outcome {
            Outcome::Content { bytes } => note_read_reply(id, bytes.as_slice()),
            Outcome::Missing => Step::Perform {
                effect: Effect::CreateEmptyFile { path },
                pending: Pending::NoteCreated { id },
            },
            _ => failed(500, "Error reading note", ServiceError::Io),
        },
        Pending::NoteCreated { id } => {
            if outcome_is_done(&outcome) {
                let note = Note { id, content: String::new() };
                done(200, note_json(&note))
            } else {
                failed(500, "Error creating note", ServiceError::Io)
            }
        },
        Pending::Searching { term, next, found } => {
            let found = found_with(found, &outcome);
            search_next(term, next, found, &config.search_dirs)
        },
        Pending::DownloadDirectory { mode, url, dir } => resume_download_directory(
            mode,
            url,
            dir,
            &outcome,
        ),
        Pending::FilenameQuery { mode, url, dir } => resume_filename_query(
            mode,
            url,
            dir,
            &outcome,
        ),
        Pending::Launched { mode, filename } => resume_launch(mode, filename, &outcome),
        Pending::FolderDirectory { dir } => {
            if outcome_is_done(&outcome) {
                let path = dir.clone();
                Step::Perform {
                    effect: Effect::ResolveAbsolute { path },
                    pending: Pending::FolderResolved { dir },
                }
            } else {
                failed(500, "Error getting dated dir", ServiceError::Directory)
            }
        },
        Pending::FolderResolved { dir } => match outcome {
            Outcome::Absolute { path } => {
                let command = open_folder(path.as_str(), dir.as_str());
                Step::Perform {
                    effect: Effect::Run { command },
                    pending: Pending::FolderOpened { absolute: path },
                }
            },
            _ => failed(500, "Error resolving folder", ServiceError::Io),
        },
        Pending::FolderOpened { absolute } => {
            if outcome_exited_well(&outcome) {
                done(200, absolute)
            } else {
                failed(500, "download failed", failure_of_outcome(&outcome))
            }
        },
    }
}

} // verus!
