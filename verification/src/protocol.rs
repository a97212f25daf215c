//! The vocabulary that the engine and its driver share.
//!
//! The engine hands out an [`Action`]; the driver performs it and answers with
//! an [`Event`]. Paths and file contents are byte strings.
use vstd::prelude::*;

verus! {

/// Why an operation failed.
#[derive(Clone, Copy, Debug, PartialEq, Eq, Structural)]
pub enum ErrorKind {
    /// Opening or creating the active file failed.
    Open,
    /// The reopen supervisor got no usable answer, so no handle was established.
    NotOpen,
    /// The operating system refused the write.
    Write,
    /// Flushing buffered bytes to the operating system failed.
    Flush,
    /// Renaming a file during a rotation failed.
    Rename,
    /// Deleting the backup beyond the retention count failed.
    Delete,
    /// The compression worker ended without reporting.
    CompressionWorkerLost,
    /// The compression worker reported an error.
    CompressionFailed,
    /// The active path is not UTF-8, so no backup name can be derived from it.
    InvalidPath,
}

/// What a non-blocking poll of the compression worker's completion slot found.
#[derive(Clone, Copy, Debug, PartialEq, Eq, Structural)]
pub enum Poll {
    /// The worker has not reported yet.
    Running,
    /// The worker is gone and left no report.
    Lost,
    /// The worker reported success.
    Succeeded,
    /// The worker reported an error.
    Failed,
}

/// The driver's answer to an [`Action`].
#[derive(Debug, PartialEq, Eq)]
pub enum Event {
    /// Answers [`Action::Clock`]: milliseconds on a monotonic clock.
    Time(u64),
    /// Answers [`Action::CheckExists`].
    Exists(bool),
    /// Answers [`Action::Open`]: the file is open and has this length.
    Opened(u64),
    /// Answers [`Action::Write`]: this many bytes were accepted.
    Written(usize),
    /// Answers [`Action::Read`]: the whole content of the file.
    Loaded(Vec<u8>),
    /// The action succeeded and has nothing to report.
    Done,
    /// The action failed.
    Failed,
    /// Answers [`Action::PollCompression`].
    Polled(Poll),
}

/// An [`Event`] with its bytes as a sequence.
pub enum EventView {
    Time(u64),
    Exists(bool),
    Opened(u64),
    Written(usize),
    Loaded(Seq<u8>),
    Done,
    Failed,
    Polled(Poll),
}

impl View for Event {
    type V = EventView;

    open spec fn view(&self) -> EventView {
        match *self {
            Event::Time(now) => EventView::Time(now),
            Event::Exists(exists) => EventView::Exists(exists),
            Event::Opened(len) => EventView::Opened(len),
            Event::Written(n) => EventView::Written(n),
            Event::Loaded(data) => EventView::Loaded(data@),
            Event::Done => EventView::Done,
            Event::Failed => EventView::Failed,
            Event::Polled(poll) => EventView::Polled(poll),
        }
    }
}

/// What the driver is to do next.
#[derive(Debug, PartialEq, Eq)]
pub enum Action {
    /// Nothing is in progress; begin an operation.
    Idle,
    /// Read the monotonic clock.
    Clock,
    /// Tell whether a file exists at this path.
    CheckExists(Vec<u8>),
    /// Drop the handle held, if any; then open `path` for writing, creating it
    /// if it is missing, emptying it if `truncate` is set and appending to it
    /// otherwise; report the length it then has.
    Open { path: Vec<u8>, truncate: bool },
    /// Write these bytes through the handle held.
    Write(Vec<u8>),
    /// Flush what the handle has buffered.
    Flush,
    /// Drop the handle held.
    Close,
    /// Rename `from` to `to`, replacing `to` if it exists.
    Rename { from: Vec<u8>, to: Vec<u8> },
    /// Delete the file at this path.
    Remove(Vec<u8>),
    /// Poll the completion slot of the compression worker, without blocking.
    /// A report that is found there is taken: the slot is done with.
    PollCompression,
    /// Start a compression worker on these three paths and keep its
    /// completion slot.
    SpawnCompression { plain: Vec<u8>, temp: Vec<u8>, dest: Vec<u8> },
    /// Read the whole file at this path.
    Read(Vec<u8>),
    /// Create or replace the file at `path` with `data`.
    Store { path: Vec<u8>, data: Vec<u8> },
    /// The operation has ended with this result. A write reports the number of
    /// bytes accepted; every other operation reports zero.
    Finished(Result<usize, ErrorKind>),
}

/// An [`Action`] with its bytes as sequences.
pub enum ActionView {
    Idle,
    Clock,
    CheckExists(Seq<u8>),
    Open { path: Seq<u8>, truncate: bool },
    Write(Seq<u8>),
    Flush,
    Close,
    Rename { from: Seq<u8>, to: Seq<u8> },
    Remove(Seq<u8>),
    PollCompression,
    SpawnCompression { plain: Seq<u8>, temp: Seq<u8>, dest: Seq<u8> },
    Read(Seq<u8>),
    Store { path: Seq<u8>, data: Seq<u8> },
    Finished(Result<usize, ErrorKind>),
}

impl View for Action {
    type V = ActionView;

    open spec fn view(&self) -> ActionView {
        match *self {
            Action::Idle => ActionView::Idle,
            Action::Clock => ActionView::Clock,
            Action::CheckExists(path) => ActionView::CheckExists(path@),
            Action::Open { path, truncate } => ActionView::Open { path: path@, truncate },
            Action::Write(data) => ActionView::Write(data@),
            Action::Flush => ActionView::Flush,
            Action::Close => ActionView::Close,
            Action::Rename { from, to } => ActionView::Rename { from: from@, to: to@ },
            Action::Remove(path) => ActionView::Remove(path@),
            Action::PollCompression => ActionView::PollCompression,
            Action::SpawnCompression { plain, temp, dest } => ActionView::SpawnCompression {
                plain: plain@,
                temp: temp@,
                dest: dest@,
            },
            Action::Read(path) => ActionView::Read(path@),
            Action::Store { path, data } => ActionView::Store { path: path@, data: data@ },
            Action::Finished(result) => ActionView::Finished(result),
        }
    }
}

} // verus!
