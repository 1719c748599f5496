//! The helper programs that the service runs, by their argument contracts:
//! the download tool in its two roles, the file search and the folder
//! browser; and what the service reads from their output.

use crate::effects::{
    push_arg, Command, CommandView, ProcessOutput, ProcessOutputView, ServiceError,
    ServiceErrorView,
};
use crate::shell::{lemma_literal_reads_back, literal_text, push_literal, read_literal};
use crate::text::{
    lossy_text, non_empty_lines, non_empty_lines_of, strip_trailing, trim_trailing_newlines,
    utf8_lossy_text,
};
use vstd::prelude::*;
use vstd::string::*;

verus! {

/// What a download request asks for.
#[derive(Clone, Copy, Debug, PartialEq, Eq, Structural)]
pub enum DownloadMode {
    /// The video with its subtitles.
    Video,
    /// The best audio track alone.
    Audio,
    /// The automatic English subtitles alone.
    SubtitlesOnly,
}

/// The arguments that make the download tool print the name of the file it
/// would write for `url`, without downloading. The tool is told to read and
/// write UTF-8 whatever the machine's locale is. There is no such query for
/// subtitles, which name no file.
pub open spec fn filename_query_args(mode: DownloadMode, url: Seq<char>) -> Seq<Seq<char>> {
    match mode {
        DownloadMode::Video => seq![
            "--encoding"@,
            "utf-8"@,
            "--print"@,
            "filename"@,
            "--windows-filenames"@,
            "--embed-metadata"@,
            url,
        ],
        DownloadMode::Audio => seq![
            "--encoding"@,
            "utf-8"@,
            "--print"@,
            "filename"@,
            "-f"@,
            "bestaudio"@,
            "--extract-audio"@,
            "--windows-filenames"@,
            "--embed-metadata"@,
            url,
        ],
        DownloadMode::SubtitlesOnly => seq![],
    }
}

/// The filename query for `mode` and `url`, where the mode has one.
pub open spec fn filename_query_command(mode: DownloadMode, url: Seq<char>) -> Option<
    CommandView,
> {
    if mode == DownloadMode::SubtitlesOnly {
        None
    } else {
        Some(
            CommandView {
                program: "yt-dlp"@,
                args: filename_query_args(mode, url),
                working_dir: None,
            },
        )
    }
}

/// The filename query for `mode` and `url`: `None` for subtitles, which
/// name no file.
pub fn filename_query(mode: DownloadMode, url: &str) -> (r: Option<Command>)
    ensures
        match r {
            Some(command) => Some(command@) == filename_query_command(mode, url@),
            None => filename_query_command(mode, url@) is None,
        },
{
    let mut args: Vec<String> = Vec::new();
    assert(args.deep_view() =~= Seq::<Seq<char>>::empty());
    push_arg(&mut args, "--encoding");
    push_arg(&mut args, "utf-8");
    push_arg(&mut args, "--print");
    push_arg(&mut args, "filename");
    match mode {
        DownloadMode::Video => {},
        DownloadMode::Audio => {
            push_arg(&mut args, "-f");
            push_arg(&mut args, "bestaudio");
            push_arg(&mut args, "--extract-audio");
        },
        DownloadMode::SubtitlesOnly => {
            return None;
        },
    }
    push_arg(&mut args, "--windows-filenames");
    push_arg(&mut args, "--embed-metadata");
    push_arg(&mut args, url);
    assert(args.deep_view() =~= filename_query_args(mode, url@));
    Some(Command { program: String::from_str("yt-dlp"), args, working_dir: None })
}

/// What stands before the URL in the line that the launched session runs:
/// the download tool and, for a video, its options.
pub open spec fn session_prefix_text(mode: DownloadMode) -> Seq<char> {
    match mode {
        DownloadMode::Video => "yt-dlp --windows-filenames --write-subs --write-auto-subs --embed-metadata "@,
        DownloadMode::Audio => "yt-dlp "@,
        DownloadMode::SubtitlesOnly => "yt-dlp "@,
    }
}

/// What stands after the URL in the line that the launched session runs:
/// the options for audio or subtitles, and the wait for a key that keeps
/// the terminal open.
pub open spec fn session_suffix_text(mode: DownloadMode) -> Seq<char> {
    match mode {
        DownloadMode::Video => " && Write-Host \"\"press any key to close\"\" && $Host.UI.RawUI.ReadKey(\"\"NoEcho,IncludeKeyDown\"\")"@,
        DownloadMode::Audio => " -f bestaudio --extract-audio --windows-filenames --embed-metadata  && Write-Host \"\"press any key to close\"\" && $Host.UI.RawUI.ReadKey(\"\"NoEcho,IncludeKeyDown\"\")"@,
        DownloadMode::SubtitlesOnly => " --write-auto-sub --skip-download --sub-lang en && Write-Host \"\"press any key to close\"\" && $Host.UI.RawUI.ReadKey(\"\"NoEcho,IncludeKeyDown\"\")"@,
    }
}

/// The line that the launched session runs: the download of `url`, which
/// stands in the line as a single-quoted literal, and then the wait for a
/// key.
pub open spec fn session_script_text(mode: DownloadMode, url: Seq<char>) -> Seq<char> {
    session_prefix_text(mode) + literal_text(url) + session_suffix_text(mode)
}

/// What stands before the session's line in the launching line: the
/// terminal and the shell that it is to start.
pub open spec fn launch_prefix_text() -> Seq<char> {
    "wt pwsh.exe -NoProfile -WorkingDirectory $(Get-Location) -c "@
}

/// The shell line that opens a terminal of its own and runs the session's
/// line in it. The session's line stands in it as a single-quoted literal.
pub open spec fn launch_script_text(mode: DownloadMode, url: Seq<char>) -> Seq<char> {
    launch_prefix_text() + literal_text(session_script_text(mode, url))
}

/// The launching shell reads the session's line as it was written, and the
/// session reads the URL as it was given: no character of the URL ends a
/// literal or is read as anything but itself, in either shell.
pub proof fn lemma_launch_script_reads_back(mode: DownloadMode, url: Seq<char>)
    ensures
        read_literal(launch_script_text(mode, url), launch_prefix_text().len() as int) == Some(
            (session_script_text(mode, url), launch_script_text(mode, url).len() as int),
        ),
        read_literal(session_script_text(mode, url), session_prefix_text(mode).len() as int)
            == Some(
            (url, (session_prefix_text(mode).len() + literal_text(url).len()) as int),
        ),
{
    let session = session_script_text(mode, url);
    lemma_literal_reads_back(launch_prefix_text(), session, Seq::<char>::empty());
    assert(launch_prefix_text() + literal_text(session) + Seq::<char>::empty()
        =~= launch_script_text(mode, url));
    reveal_strlit(
        " && Write-Host \"\"press any key to close\"\" && $Host.UI.RawUI.ReadKey(\"\"NoEcho,IncludeKeyDown\"\")",
    );
    reveal_strlit(
        " -f bestaudio --extract-audio --windows-filenames --embed-metadata  && Write-Host \"\"press any key to close\"\" && $Host.UI.RawUI.ReadKey(\"\"NoEcho,IncludeKeyDown\"\")",
    );
    reveal_strlit(
        " --write-auto-sub --skip-download --sub-lang en && Write-Host \"\"press any key to close\"\" && $Host.UI.RawUI.ReadKey(\"\"NoEcho,IncludeKeyDown\"\")",
    );
    assert(session_suffix_text(mode)[0] == ' ');
    lemma_literal_reads_back(session_prefix_text(mode), url, session_suffix_text(mode));
}

/// The command that launches the download of `url` in a detached terminal,
/// run in the directory `dir`. It returns as soon as the terminal has
/// started; the download goes on in the terminal.
pub open spec fn launch_command(mode: DownloadMode, url: Seq<char>, dir: Seq<char>) -> CommandView {
    CommandView {
        program: "pwsh"@,
        args: seq![
            "-NoProfile"@,
            "-WorkingDirectory"@,
            "$(Get-Location)"@,
            "-c"@,
            launch_script_text(mode, url),
        ],
        working_dir: Some(dir),
    }
}

/// The line that the launched session runs.
pub fn session_script(mode: DownloadMode, url: &str) -> (r: String)
    ensures
        r@ == session_script_text(mode, url@),
{
    let mut out = match mode {
        DownloadMode::Video => String::from_str(
            "yt-dlp --windows-filenames --write-subs --write-auto-subs --embed-metadata ",
        ),
        DownloadMode::Audio => String::from_str("yt-dlp "),
        DownloadMode::SubtitlesOnly => String::from_str("yt-dlp "),
    };
    push_literal(&mut out, url);
    match mode {
        DownloadMode::Video => {
            out.append(
                " && Write-Host \"\"press any key to close\"\" && $Host.UI.RawUI.ReadKey(\"\"NoEcho,IncludeKeyDown\"\")",
            );
        },
        DownloadMode::Audio => {
            out.append(
                " -f bestaudio --extract-audio --windows-filenames --embed-metadata  && Write-Host \"\"press any key to close\"\" && $Host.UI.RawUI.ReadKey(\"\"NoEcho,IncludeKeyDown\"\")",
            );
        },
        DownloadMode::SubtitlesOnly => {
            out.append(
                " --write-auto-sub --skip-download --sub-lang en && Write-Host \"\"press any key to close\"\" && $Host.UI.RawUI.ReadKey(\"\"NoEcho,IncludeKeyDown\"\")",
            );
        },
    }
    assert(out@ =~= session_script_text(mode, url@));
    out
}

/// The shell line that runs the download of `url` in a terminal of its own.
pub fn launch_script(mode: DownloadMode, url: &str) -> (r: String)
    ensures
        r@ == launch_script_text(mode, url@),
{
    let mut out = String::from_str("wt pwsh.exe -NoProfile -WorkingDirectory $(Get-Location) -c ");
    let session = session_script(mode, url);
    push_literal(&mut out, session.as_str());
    out
}

/// The command that launches the download of `url` in a detached terminal,
/// run in the directory `dir`.
pub fn launch(mode: DownloadMode, url: &str, dir: &str) -> (r: Command)
    ensures
        r@ == launch_command(mode, url@, dir@),
{
    let mut args: Vec<String> = Vec::new();
    assert(args.deep_view() =~= Seq::<Seq<char>>::empty());
    push_arg(&mut args, "-NoProfile");
    push_arg(&mut args, "-WorkingDirectory");
    push_arg(&mut args, "$(Get-Location)");
    push_arg(&mut args, "-c");
    let script = launch_script(mode, url);
    push_arg(&mut args, script.as_str());
    assert(args.deep_view() =~= launch_command(mode, url@, dir@).args);
    Command { program: String::from_str("pwsh"), args, working_dir: Some(String::from_str(dir)) }
}

/// The command that opens a file browser on the directory `absolute`, run
/// in the directory `dir`.
pub open spec fn folder_command(absolute: Seq<char>, dir: Seq<char>) -> CommandView {
    CommandView { program: "explorer.exe"@, args: seq![absolute], working_dir: Some(dir) }
}

/// The command that opens a file browser on the directory `absolute`, run
/// in the directory `dir`.
pub fn open_folder(absolute: &str, dir: &str) -> (r: Command)
    ensures
        r@ == folder_command(absolute@, dir@),
{
    let mut args: Vec<String> = Vec::new();
    assert(args.deep_view() =~= Seq::<Seq<char>>::empty());
    push_arg(&mut args, absolute);
    assert(args.deep_view() =~= seq![absolute@]);
    Command {
        program: String::from_str("explorer.exe"),
        args,
        working_dir: Some(String::from_str(dir)),
    }
}

/// What stands before the directory in the search line: the listing of
/// every file under a directory that is named letter by letter.
pub open spec fn search_prefix_text() -> Seq<char> {
    "Get-ChildItem -Recurse -LiteralPath "@
}

/// What stands between the directory and the text in the search line: each
/// file by its full path, handed to the search tool, which compares
/// without regard to case and reads no character of the text as a pattern.
pub open spec fn search_middle_text() -> Seq<char> {
    " | ForEach-Object { $_.FullName} | rg --ignore-case --fixed-strings --regexp "@
}

/// The shell line that lists every file under `dir` by its full path and
/// keeps the paths that hold `text`. The directory and the text each stand
/// in the line as a single-quoted literal.
pub open spec fn search_script_text(text: Seq<char>, dir: Seq<char>) -> Seq<char> {
    search_prefix_text() + literal_text(dir) + search_middle_text() + literal_text(text)
}

/// The shell reads the directory and the text of a search as they were
/// given: no character of either ends its literal or is read as anything
/// but itself, and the line ends with the text's literal.
pub proof fn lemma_search_script_reads_back(text: Seq<char>, dir: Seq<char>)
    ensures
        read_literal(search_script_text(text, dir), search_prefix_text().len() as int) == Some(
            (dir, (search_prefix_text().len() + literal_text(dir).len()) as int),
        ),
        read_literal(
            search_script_text(text, dir),
            (search_prefix_text().len() + literal_text(dir).len() + search_middle_text().len())
                as int,
        ) == Some((text, search_script_text(text, dir).len() as int)),
{
    let script = search_script_text(text, dir);
    reveal_strlit(" | ForEach-Object { $_.FullName} | rg --ignore-case --fixed-strings --regexp ");
    let after = search_middle_text() + literal_text(text);
    assert(after[0] == ' ');
    lemma_literal_reads_back(search_prefix_text(), dir, after);
    assert(search_prefix_text() + literal_text(dir) + after =~= script);
    let before = search_prefix_text() + literal_text(dir) + search_middle_text();
    lemma_literal_reads_back(before, text, Seq::<char>::empty());
    assert(before + literal_text(text) + Seq::<char>::empty() =~= script);
}

/// The command that searches `dir` for files whose path holds `text`.
pub open spec fn search_command(text: Seq<char>, dir: Seq<char>) -> CommandView {
    CommandView {
        program: "pwsh"@,
        args: seq!["-c"@, search_script_text(text, dir)],
        working_dir: None,
    }
}

/// The command that searches `dir` for files whose path holds `text`.
pub fn search(text: &str, dir: &str) -> (r: Command)
    ensures
        r@ == search_command(text@, dir@),
{
    let mut script = String::from_str("Get-ChildItem -Recurse -LiteralPath ");
    push_literal(&mut script, dir);
    script.append(" | ForEach-Object { $_.FullName} | rg --ignore-case --fixed-strings --regexp ");
    push_literal(&mut script, text);
    assert(script@ =~= search_script_text(text@, dir@));
    let mut args: Vec<String> = Vec::new();
    assert(args.deep_view() =~= Seq::<Seq<char>>::empty());
    push_arg(&mut args, "-c");
    push_arg(&mut args, script.as_str());
    assert(args.deep_view() =~= search_command(text@, dir@).args);
    Command { program: String::from_str("pwsh"), args, working_dir: None }
}

/// The failure that a helper program reports by exiting with a failure
/// status: what it wrote to its error stream, as text.
pub open spec fn tool_failure(output: ProcessOutputView) -> ServiceErrorView {
    ServiceErrorView::ExternalTool { diagnostic: utf8_lossy_text(output.stderr) }
}

/// The file name that the download tool printed: its output as text,
/// without the line feeds that end it.
pub open spec fn filename_text(stdout: Seq<u8>) -> Seq<char> {
    strip_trailing(utf8_lossy_text(stdout), '\n')
}

/// What the filename query came to: the file name if the tool exited with
/// success, and else the tool's own words.
pub open spec fn queried_filename(output: ProcessOutputView) -> Result<
    Seq<char>,
    ServiceErrorView,
> {
    if output.success {
        Ok(filename_text(output.stdout))
    } else {
        Err(tool_failure(output))
    }
}

/// The failure that `output` reports.
pub fn failure_of(output: &ProcessOutput) -> (e: ServiceError)
    ensures
        e@ == tool_failure(output@),
{
    ServiceError::ExternalTool { diagnostic: lossy_text(output.stderr.as_slice()) }
}

/// Reads the output of the filename query.
pub fn filename_from_output(output: &ProcessOutput) -> (r: Result<String, ServiceError>)
    ensures
        match r {
            Ok(name) => queried_filename(output@) == Ok::<Seq<char>, ServiceErrorView>(name@),
            Err(e) => queried_filename(output@) == Err::<Seq<char>, ServiceErrorView>(e@),
        },
{
    if output.success {
        let printed = lossy_text(output.stdout.as_slice());
        Ok(trim_trailing_newlines(printed.as_str()))
    } else {
        Err(failure_of(output))
    }
}

/// What a search came to: the paths it printed, one to a line, if the
/// search tool exited with success, and else the tool's own words.
pub open spec fn search_hits(output: ProcessOutputView) -> Result<
    Seq<Seq<char>>,
    ServiceErrorView,
> {
    if output.success {
        Ok(non_empty_lines_of(utf8_lossy_text(output.stdout)))
    } else {
        Err(tool_failure(output))
    }
}

/// Reads the output of a search.
pub fn search_hits_from_output(output: &ProcessOutput) -> (r: Result<Vec<String>, ServiceError>)
    ensures
        match r {
            Ok(hits) => search_hits(output@) == Ok::<Seq<Seq<char>>, ServiceErrorView>(
                hits.deep_view(),
            ),
            Err(e) => search_hits(output@) == Err::<Seq<Seq<char>>, ServiceErrorView>(e@),
        },
{
    if output.success {
        let printed = lossy_text(output.stdout.as_slice());
        Ok(non_empty_lines(printed.as_str()))
    } else {
        Err(failure_of(output))
    }
}

} // verus!
