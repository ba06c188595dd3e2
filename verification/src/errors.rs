//! What can go wrong while watching for changes.
//!
//! `E` is the failure that the outside world reported. It is handed through
//! untouched as the `source` of the error that the user gets to see.
use crate::path::{FilePath, PathView};
use vstd::prelude::*;

verus! {

/// The file that an error is about: either the text that the user wrote on the
/// command line, or a path that was found on the way.
#[derive(Debug, PartialEq, Eq)]
pub enum Subject {
    Named(String),
    At(FilePath),
}

/// A failure of the watching process.
#[derive(Debug, PartialEq, Eq)]
pub enum WatchError<E> {
    /// A file or directory could not be made into a full path.
    WatchFileNotResolved { filename: Subject, source: E },
    /// The path of the running program could not be found.
    GetSelfPathFailed { source: E },
    /// The file watcher could not be created.
    WatcherSetupFailed { source: E },
    /// An entry below a watched or excluded directory could not be read.
    ReadCustomDirEntryFailed { source: E },
    /// The current directory could not be listed.
    ReadCurrentDirFailed { source: E },
    /// An entry of the current directory could not be read.
    ReadDirEntryFailed { source: E },
    /// A file could not be added to the watcher.
    WatchFileFailed { filename: Subject, source: E },
    /// The program could not start a copy of itself.
    SpawnSelfFailed { source: E },
    /// No more events can arrive.
    WatcherError { source: E },
}

/// A [`Subject`] in terms of what it holds.
pub enum SubjectView {
    Named(Seq<char>),
    At(PathView),
}

/// A [`WatchError`] in terms of what it holds.
pub enum WatchErrorView<E> {
    WatchFileNotResolved { filename: SubjectView, source: E },
    GetSelfPathFailed { source: E },
    WatcherSetupFailed { source: E },
    ReadCustomDirEntryFailed { source: E },
    ReadCurrentDirFailed { source: E },
    ReadDirEntryFailed { source: E },
    WatchFileFailed { filename: SubjectView, source: E },
    SpawnSelfFailed { source: E },
    WatcherError { source: E },
}

impl View for Subject {
    type V = SubjectView;

    open spec fn view(&self) -> SubjectView {
        match self {
            Subject::Named(name) => SubjectView::Named(name@),
            Subject::At(path) => SubjectView::At(path@),
        }
    }
}

impl<E> View for WatchError<E> {
    type V = WatchErrorView<E>;

    open spec fn view(&self) -> WatchErrorView<E> {
        match *self {
            WatchError::WatchFileNotResolved { filename, source } => {
                WatchErrorView::WatchFileNotResolved { filename: filename@, source }
            },
            WatchError::GetSelfPathFailed { source } => {
                WatchErrorView::GetSelfPathFailed { source }
            },
            WatchError::WatcherSetupFailed { source } => {
                WatchErrorView::WatcherSetupFailed { source }
            },
            WatchError::ReadCustomDirEntryFailed { source } => {
                WatchErrorView::ReadCustomDirEntryFailed { source }
            },
            WatchError::ReadCurrentDirFailed { source } => {
                WatchErrorView::ReadCurrentDirFailed { source }
            },
            WatchError::ReadDirEntryFailed { source } => {
                WatchErrorView::ReadDirEntryFailed { source }
            },
            WatchError::WatchFileFailed { filename, source } => {
                WatchErrorView::WatchFileFailed { filename: filename@, source }
            },
            WatchError::SpawnSelfFailed { source } => {
                WatchErrorView::SpawnSelfFailed { source }
            },
            WatchError::WatcherError { source } => WatchErrorView::WatcherError { source },
        }
    }
}

} // verus!
