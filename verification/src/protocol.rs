//! The shape of a request in progress: what is waited for, and what the
//! next step is.
//!
//! Handling a request is a dialogue. The library answers each call with a
//! [`Step`]: either an [`Effect`] for the caller to perform, together with
//! the [`Pending`] state to come back with, or the final response.

use crate::dates::CalendarDate;
use crate::effects::{Effect, EffectView, ServiceError, ServiceErrorView};
use crate::http::{reply, Response, ResponseView};
use crate::tools::DownloadMode;
use vstd::prelude::*;
use vstd::string::*;

verus! {

/// What a request in progress waits for.
#[derive(Clone, Debug, PartialEq, Eq)]
pub enum Pending {
    /// The dated directory for a note that is not on record yet. `content`
    /// is the text to store, or `None` where the note is to be read.
    NoteDirectory { id: String, content: Option<String>, date: CalendarDate },
    /// The note's file is being written.
    NoteWritten,
    /// The note's file is being read.
    NoteRead { id: String, path: String },
    /// The missing file of a note is being created empty.
    NoteCreated { id: String },
    /// A search of one directory runs; `next` counts the directories that
    /// were started, `found` holds what the finished ones printed.
    Searching { term: String, next: usize, found: Vec<String> },
    /// The dated directory for a download.
    DownloadDirectory { mode: DownloadMode, url: String, dir: String },
    /// The download tool is asked for the file name.
    FilenameQuery { mode: DownloadMode, url: String, dir: String },
    /// The terminal that runs the download is being started.
    Launched { mode: DownloadMode, filename: String },
    /// The dated directory that is to be shown.
    FolderDirectory { dir: String },
    /// The absolute path of the directory that is to be shown.
    FolderResolved { dir: String },
    /// The file browser is being started.
    FolderOpened { absolute: String },
}

/// A [`Pending`] as plain values.
pub enum PendingView {
    NoteDirectory { id: Seq<char>, content: Option<Seq<char>>, date: CalendarDate },
    NoteWritten,
    NoteRead { id: Seq<char>, path: Seq<char> },
    NoteCreated { id: Seq<char> },
    Searching { term: Seq<char>, next: nat, found: Seq<Seq<char>> },
    DownloadDirectory { mode: DownloadMode, url: Seq<char>, dir: Seq<char> },
    FilenameQuery { mode: DownloadMode, url: Seq<char>, dir: Seq<char> },
    Launched { mode: DownloadMode, filename: Seq<char> },
    FolderDirectory { dir: Seq<char> },
    FolderResolved { dir: Seq<char> },
    FolderOpened { absolute: Seq<char> },
}

impl View for Pending {
    type V = PendingView;

    open spec fn view(&self) -> PendingView {
        match self {
            Pending::NoteDirectory { id, content, date } => PendingView::NoteDirectory {
                id: id@,
                content: content.deep_view(),
                date: *date,
            },
            Pending::NoteWritten => PendingView::NoteWritten,
            Pending::NoteRead { id, path } => PendingView::NoteRead { id: id@, path: path@ },
            Pending::NoteCreated { id } => PendingView::NoteCreated { id: id@ },
            Pending::Searching { term, next, found } => PendingView::Searching {
                term: term@,
                next: *next as nat,
                found: found.deep_view(),
            },
            Pending::DownloadDirectory { mode, url, dir } => PendingView::DownloadDirectory {
                mode: *mode,
                url: url@,
                dir: dir@,
            },
            Pending::FilenameQuery { mode, url, dir } => PendingView::FilenameQuery {
                mode: *mode,
                url: url@,
                dir: dir@,
            },
            Pending::Launched { mode, filename } => PendingView::Launched {
                mode: *mode,
                filename: filename@,
            },
            Pending::FolderDirectory { dir } => PendingView::FolderDirectory { dir: dir@ },
            Pending::FolderResolved { dir } => PendingView::FolderResolved { dir: dir@ },
            Pending::FolderOpened { absolute } => PendingView::FolderOpened {
                absolute: absolute@,
            },
        }
    }
}

/// The view of an optional failure.
pub open spec fn optional_failure(failure: Option<ServiceError>) -> Option<ServiceErrorView> {
    match failure {
        Some(e) => Some(e@),
        None => None,
    }
}

/// What the caller is to do next.
#[derive(Clone, Debug, PartialEq, Eq)]
pub enum Step {
    /// Perform the effect, then resume with `pending` and the outcome.
    Perform { effect: Effect, pending: Pending },
    /// Send the response; the request is over. `failure` says what went
    /// wrong, if anything did.
    Reply { response: Response, failure: Option<ServiceError> },
}

/// A [`Step`] as plain values.
pub enum StepView {
    Perform { effect: EffectView, pending: PendingView },
    Reply { response: ResponseView, failure: Option<ServiceErrorView> },
}

impl View for Step {
    type V = StepView;

    open spec fn view(&self) -> StepView {
        match self {
            Step::Perform { effect, pending } => StepView::Perform {
                effect: effect@,
                pending: pending@,
            },
            Step::Reply { response, failure } => StepView::Reply {
                response: response@,
                failure: optional_failure(*failure),
            },
        }
    }
}

/// The step that performs `effect` and waits in `pending`.
pub open spec fn perform(effect: EffectView, pending: PendingView) -> StepView {
    StepView::Perform { effect, pending }
}

/// The step that ends a request without a failure.
pub open spec fn succeed(status: int, body: Seq<char>) -> StepView {
    StepView::Reply { response: reply(status, body), failure: None }
}

/// The step that ends a request with a failure.
pub open spec fn fail(status: int, body: Seq<char>, error: ServiceErrorView) -> StepView {
    StepView::Reply { response: reply(status, body), failure: Some(error) }
}

} // verus!
