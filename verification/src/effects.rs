//! The work that the library asks its caller to do, and what the caller
//! reports back.
//!
//! The library never touches a file, a process or the network itself. Each
//! step of a request names one [`Effect`]; the caller performs it and
//! answers with an [`Outcome`].

use vstd::prelude::*;
use vstd::string::*;

verus! {

/// A program to run: its name, its arguments in order, and the directory
/// to run it in where that matters.
#[derive(Clone, Debug, PartialEq, Eq)]
pub struct Command {
    pub program: String,
    pub args: Vec<String>,
    pub working_dir: Option<String>,
}

/// A [`Command`] as plain text.
pub struct CommandView {
    pub program: Seq<char>,
    pub args: Seq<Seq<char>>,
    pub working_dir: Option<Seq<char>>,
}

impl View for Command {
    type V = CommandView;

    open spec fn view(&self) -> CommandView {
        CommandView {
            program: self.program@,
            args: self.args.deep_view(),
            working_dir: self.working_dir.deep_view(),
        }
    }
}

/// What a finished process leaves behind: whether it exited with status
/// zero, and what it wrote to its two output streams.
#[derive(Clone, Debug, PartialEq, Eq)]
pub struct ProcessOutput {
    pub success: bool,
    pub stdout: Vec<u8>,
    pub stderr: Vec<u8>,
}

/// A [`ProcessOutput`] as plain values.
pub struct ProcessOutputView {
    pub success: bool,
    pub stdout: Seq<u8>,
    pub stderr: Seq<u8>,
}

impl View for ProcessOutput {
    type V = ProcessOutputView;

    open spec fn view(&self) -> ProcessOutputView {
        ProcessOutputView { success: self.success, stdout: self.stdout@, stderr: self.stderr@ }
    }
}

/// One piece of work for the caller.
#[derive(Clone, Debug, PartialEq, Eq)]
pub enum Effect {
    /// Create the directory and every missing parent.
    CreateDirectory { path: String },
    /// Create the file or empty it, then write all the bytes.
    WriteFile { path: String, bytes: Vec<u8> },
    /// Read the whole file, or report that it is missing.
    ReadFile { path: String },
    /// Create the file with no content if it does not exist.
    CreateEmptyFile { path: String },
    /// Turn the path into an absolute one without links or `..`.
    ResolveAbsolute { path: String },
    /// Run the program and wait until it exits.
    Run { command: Command },
}

/// An [`Effect`] as plain values.
pub enum EffectView {
    CreateDirectory { path: Seq<char> },
    WriteFile { path: Seq<char>, bytes: Seq<u8> },
    ReadFile { path: Seq<char> },
    CreateEmptyFile { path: Seq<char> },
    ResolveAbsolute { path: Seq<char> },
    Run { command: CommandView },
}

impl View for Effect {
    type V = EffectView;

    open spec fn view(&self) -> EffectView {
        match self {
            Effect::CreateDirectory { path } => EffectView::CreateDirectory { path: path@ },
            Effect::WriteFile { path, bytes } => EffectView::WriteFile {
                path: path@,
                bytes: bytes@,
            },
            Effect::ReadFile { path } => EffectView::ReadFile { path: path@ },
            Effect::CreateEmptyFile { path } => EffectView::CreateEmptyFile { path: path@ },
            Effect::ResolveAbsolute { path } => EffectView::ResolveAbsolute { path: path@ },
            Effect::Run { command } => EffectView::Run { command: command@ },
        }
    }
}

/// What became of an [`Effect`].
#[derive(Clone, Debug, PartialEq, Eq)]
pub enum Outcome {
    /// The work was done and has nothing to report.
    Done,
    /// The work could not be done.
    Failed,
    /// The file to read does not exist.
    Missing,
    /// The bytes of the file that was read.
    Content { bytes: Vec<u8> },
    /// The absolute form of the path.
    Absolute { path: String },
    /// The process ran and exited.
    Exited { output: ProcessOutput },
}

/// An [`Outcome`] as plain values.
pub enum OutcomeView {
    Done,
    Failed,
    Missing,
    Content { bytes: Seq<u8> },
    Absolute { path: Seq<char> },
    Exited { output: ProcessOutputView },
}

impl View for Outcome {
    type V = OutcomeView;

    open spec fn view(&self) -> OutcomeView {
        match self {
            Outcome::Done => OutcomeView::Done,
            Outcome::Failed => OutcomeView::Failed,
            Outcome::Missing => OutcomeView::Missing,
            Outcome::Content { bytes } => OutcomeView::Content { bytes: bytes@ },
            Outcome::Absolute { path } => OutcomeView::Absolute { path: path@ },
            Outcome::Exited { output } => OutcomeView::Exited { output: output@ },
        }
    }
}

/// Why a request failed.
#[derive(Clone, Debug, PartialEq, Eq)]
pub enum ServiceError {
    /// A note's file could not be created, read or written.
    Io,
    /// A dated directory could not be created.
    Directory,
    /// A helper program did not start or exited with a failure; the text is
    /// what it wrote to its error stream.
    ExternalTool { diagnostic: String },
    /// The request's body or query could not be understood.
    Decode,
}

/// A [`ServiceError`] as plain values.
pub enum ServiceErrorView {
    Io,
    Directory,
    ExternalTool { diagnostic: Seq<char> },
    Decode,
}

impl View for ServiceError {
    type V = ServiceErrorView;

    open spec fn view(&self) -> ServiceErrorView {
        match self {
            ServiceError::Io => ServiceErrorView::Io,
            ServiceError::Directory => ServiceErrorView::Directory,
            ServiceError::ExternalTool { diagnostic } => ServiceErrorView::ExternalTool {
                diagnostic: diagnostic@,
            },
            ServiceError::Decode => ServiceErrorView::Decode,
        }
    }
}

/// Appends `arg` to a list of arguments.
pub fn push_arg(args: &mut Vec<String>, arg: &str)
    ensures
        final(args).deep_view() == old(args).deep_view().push(arg@),
{
    args.push(String::from_str(arg));
    assert(final(args).deep_view() =~= old(args).deep_view().push(arg@));
}

} // verus!
