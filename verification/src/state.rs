//! The appender as a mathematical state machine.
//!
//! [`State`] is what the appender knows; [`step`] says how an [`EventView`]
//! changes it and which action follows. [`begin_write`] and [`begin_flush`]
//! start the two operations. The executable appender is proved to follow
//! these functions exactly.
use crate::names::{backup_path, plain_path, temp_path};
use crate::protocol::{ActionView, ErrorKind, EventView, Poll};
use vstd::prelude::*;
use vstd::utf8::valid_utf8;

verus! {

/// What follows once the reopen supervisor has a handle.
#[derive(Clone, Copy, Debug, PartialEq, Eq, Structural)]
pub enum Then {
    /// The bytes of the write in progress are written.
    Write,
    /// The rotation in progress ends.
    Finish,
}

/// The request whose answer the appender is waiting for.
#[derive(Clone, Copy, Debug, PartialEq, Eq, Structural)]
pub enum Stage {
    /// No operation is in progress.
    Idle,
    /// Supervisor: the time.
    Clock(Then),
    /// Supervisor: whether the active path exists.
    Exists(Then),
    /// Supervisor: the outcome of opening the active path.
    Open(Then),
    /// The outcome of the write.
    Write,
    /// The outcome of the flush.
    Flush,
    /// Rotation: what the compression worker has reported.
    Poll,
    /// Rotation: the handle being dropped.
    Close,
    /// Rotation: whether backup `i` exists.
    CascadeExists(usize),
    /// Rotation: the outcome of moving backup `i` to `i + 1`.
    CascadeRename(usize),
    /// Rotation: whether the active path exists.
    RetireExists,
    /// Rotation: the outcome of moving the active file to slot 1.
    RetireRename,
    /// Rotation: the compression worker being started.
    Spawn,
    /// Rotation: whether the backup beyond the retention count exists.
    PruneExists,
    /// Rotation: the outcome of deleting that backup.
    PruneRemove,
}

/// Everything the appender knows.
pub struct State {
    /// The active path.
    pub path: Seq<u8>,
    /// Whether opening discards what the file holds.
    pub truncate: bool,
    /// Bytes in the file behind the current handle, as far as the appender
    /// has counted them.
    pub written_size: u64,
    /// A flush rotates once `written_size` has reached this.
    pub rotate_size: u64,
    /// How many backups are kept.
    pub rotate_keep: usize,
    /// Whether retired files are compressed.
    pub rotate_compress: bool,
    /// Whether the driver holds a handle.
    pub open: bool,
    /// Whether a compression worker was started and its report not yet taken.
    pub pending_compression: bool,
    /// The earliest time at which the active path is looked for again.
    pub next_reopen_check: u64,
    /// The least time between two such looks, in milliseconds.
    pub reopen_check_interval: u64,
    /// What the appender is waiting for.
    pub stage: Stage,
    /// The bytes of the write in progress that have not been handed out yet.
    pub outgoing: Seq<u8>,
}

impl State {
    /// The invariant of the appender: indices stay within the retention
    /// count, and a rotation moves files only with the handle dropped, no
    /// compression pending and a path that names its backups.
    pub open spec fn wf(self) -> bool {
        &&& self.rotate_keep < usize::MAX
        &&& match self.stage {
            Stage::CascadeExists(i) | Stage::CascadeRename(i) => {
                &&& 1 <= i <= self.rotate_keep
                &&& !self.pending_compression
                &&& !self.open
                &&& valid_utf8(self.path)
            },
            Stage::RetireRename => {
                &&& !self.pending_compression
                &&& !self.open
                &&& valid_utf8(self.path)
            },
            Stage::Spawn => !self.open && valid_utf8(self.path),
            Stage::Close | Stage::RetireExists => !self.pending_compression && !self.open,
            Stage::PruneExists | Stage::PruneRemove => !self.open && valid_utf8(self.path),
            Stage::Clock(Then::Finish) | Stage::Exists(Then::Finish) => !self.open,
            _ => true,
        }
    }

    /// The path of backup `i` under this appender's naming scheme.
    pub open spec fn backup(self, i: nat) -> Seq<u8> {
        backup_path(self.path, i, self.rotate_compress)
    }

    /// Whether no operation is in progress.
    pub open spec fn idle(self) -> bool {
        self.stage is Idle
    }
}

/// `a + b`, or `u64::MAX` where the sum does not fit. Counts and times stop
/// at the top rather than wrap: a count that has stopped there still meets
/// every threshold, and a look that is due then stays due.
pub open spec fn saturating_sum(a: u64, b: int) -> u64 {
    if a + b > u64::MAX {
        u64::MAX
    } else {
        (a + b) as u64
    }
}

/// A freshly made appender: nothing open, nothing counted, nothing pending,
/// the first look at the active path due at once, one second between looks.
pub open spec fn initial(
    path: Seq<u8>,
    truncate: bool,
    rotate_size: u64,
    rotate_keep: usize,
    rotate_compress: bool,
) -> State {
    State {
        path,
        truncate,
        written_size: 0,
        rotate_size,
        rotate_keep,
        rotate_compress,
        open: false,
        pending_compression: false,
        next_reopen_check: 0,
        reopen_check_interval: 1000,
        stage: Stage::Idle,
        outgoing: Seq::empty(),
    }
}

/// The operation ends with `result`.
pub open spec fn finish(s: State, result: Result<usize, ErrorKind>) -> (State, ActionView) {
    (State { stage: Stage::Idle, outgoing: Seq::empty(), ..s }, ActionView::Finished(result))
}

/// The operation ends with an error of this kind.
pub open spec fn fail(s: State, kind: ErrorKind) -> (State, ActionView) {
    finish(s, Err(kind))
}

/// The supervisor has a handle: the write goes out, or the rotation ends.
pub open spec fn proceed(s: State, then: Then) -> (State, ActionView) {
    match then {
        Then::Write => (
            State { stage: Stage::Write, outgoing: Seq::empty(), ..s },
            ActionView::Write(s.outgoing),
        ),
        Then::Finish => finish(s, Ok(0)),
    }
}

/// The supervisor's decision: the file is opened anew when no handle is held
/// or the active path is gone, and the handle held is kept otherwise.
pub open spec fn supervise(s: State, exists: bool, then: Then) -> (State, ActionView) {
    if !s.open || !exists {
        (
            State { open: false, stage: Stage::Open(then), ..s },
            ActionView::Open { path: s.path, truncate: s.truncate },
        )
    } else {
        proceed(s, then)
    }
}

/// The supervisor learns the time: when a look at the active path is due it
/// asks for one and schedules the next, else it takes the path to exist.
pub open spec fn on_time(s: State, now: u64, then: Then) -> (State, ActionView) {
    if now >= s.next_reopen_check {
        (
            State {
                next_reopen_check: saturating_sum(now, s.reopen_check_interval as int),
                stage: Stage::Exists(then),
                ..s
            },
            ActionView::CheckExists(s.path),
        )
    } else {
        supervise(s, true, then)
    }
}

/// The last step of a rotation: the count starts over and the supervisor is
/// made to look at the active path at once.
pub open spec fn reopen_after_rotation(s: State) -> (State, ActionView) {
    (
        State { written_size: 0, next_reopen_check: 0, stage: Stage::Clock(Then::Finish), ..s },
        ActionView::Clock,
    )
}

/// Rotation, pruning: the backup one beyond the retention count is looked for.
pub open spec fn prune(s: State) -> (State, ActionView) {
    if !valid_utf8(s.path) {
        fail(s, ErrorKind::InvalidPath)
    } else {
        (
            State { stage: Stage::PruneExists, ..s },
            ActionView::CheckExists(s.backup((s.rotate_keep + 1) as nat)),
        )
    }
}

/// Rotation, retiring: a compression worker is started on the retired file.
/// The compression is pending from the moment the start is asked for, so that
/// a worker which was started is never forgotten.
pub open spec fn spawn(s: State) -> (State, ActionView) {
    (
        State { stage: Stage::Spawn, pending_compression: true, ..s },
        ActionView::SpawnCompression {
            plain: plain_path(s.path),
            temp: temp_path(s.path),
            dest: backup_path(s.path, 1, true),
        },
    )
}

/// Rotation, retiring: the active file moves to slot 1 under its plain name.
pub open spec fn retire_rename(s: State) -> (State, ActionView) {
    if !valid_utf8(s.path) {
        fail(s, ErrorKind::InvalidPath)
    } else {
        (
            State { stage: Stage::RetireRename, ..s },
            ActionView::Rename { from: s.path, to: plain_path(s.path) },
        )
    }
}

/// Rotation, retiring: the active path is looked for.
pub open spec fn retire(s: State) -> (State, ActionView) {
    (State { stage: Stage::RetireExists, ..s }, ActionView::CheckExists(s.path))
}

/// Rotation, cascade: backup `i` is looked for, or the cascade is over.
pub open spec fn cascade(s: State, i: usize) -> (State, ActionView) {
    if i >= 1 {
        if !valid_utf8(s.path) {
            fail(s, ErrorKind::InvalidPath)
        } else {
            (
                State { stage: Stage::CascadeExists(i), ..s },
                ActionView::CheckExists(s.backup(i as nat)),
            )
        }
    } else {
        retire(s)
    }
}

/// Rotation: the handle is dropped before any file moves.
pub open spec fn close(s: State) -> (State, ActionView) {
    if s.open {
        (State { open: false, stage: Stage::Close, ..s }, ActionView::Close)
    } else {
        cascade(s, s.rotate_keep)
    }
}

/// Rotation begins: a pending compression is polled first.
pub open spec fn rotate(s: State) -> (State, ActionView) {
    if s.pending_compression {
        (State { stage: Stage::Poll, ..s }, ActionView::PollCompression)
    } else {
        close(s)
    }
}

/// Rotation, compression gate: what the poll decides. A report that was
/// taken, of success or of failure, is no longer pending; a worker that is
/// still running or was lost stays pending.
pub open spec fn on_poll(s: State, poll: Poll) -> (State, ActionView) {
    match poll {
        Poll::Running => finish(s, Ok(0)),
        Poll::Lost => fail(s, ErrorKind::CompressionWorkerLost),
        Poll::Failed => fail(
            State { pending_compression: false, ..s },
            ErrorKind::CompressionFailed,
        ),
        Poll::Succeeded => close(State { pending_compression: false, ..s }),
    }
}

/// After the flush: the threshold decides whether the file rotates.
pub open spec fn after_flush(s: State) -> (State, ActionView) {
    if s.written_size >= s.rotate_size {
        rotate(s)
    } else {
        finish(s, Ok(0))
    }
}

/// A write of `data` begins. Whatever was in progress is abandoned.
pub open spec fn begin_write(s: State, data: Seq<u8>) -> (State, ActionView) {
    (State { stage: Stage::Clock(Then::Write), outgoing: data, ..s }, ActionView::Clock)
}

/// A flush begins. Whatever was in progress is abandoned.
pub open spec fn begin_flush(s: State) -> (State, ActionView) {
    let s = State { outgoing: Seq::empty(), ..s };
    if s.open {
        (State { stage: Stage::Flush, ..s }, ActionView::Flush)
    } else {
        after_flush(s)
    }
}

/// The appender takes the answer to its pending request. An answer that does
/// not fit the request fails the operation with the kind of that request.
/// Dropping a handle cannot fail, so any answer acknowledges it; and an answer
/// that comes while nothing is in progress changes nothing.
pub open spec fn step(s: State, e: EventView) -> (State, ActionView) {
    match s.stage {
        Stage::Idle => (s, ActionView::Idle),
        Stage::Clock(then) => match e {
            EventView::Time(now) => on_time(s, now, then),
            _ => fail(s, ErrorKind::NotOpen),
        },
        Stage::Exists(then) => match e {
            EventView::Exists(exists) => supervise(s, exists, then),
            _ => fail(s, ErrorKind::NotOpen),
        },
        Stage::Open(then) => match e {
            EventView::Opened(len) => proceed(State { open: true, written_size: len, ..s }, then),
            _ => fail(s, ErrorKind::Open),
        },
        Stage::Write => match e {
            EventView::Written(n) => finish(
                State { written_size: saturating_sum(s.written_size, n as int), ..s },
                Ok(n),
            ),
            _ => fail(s, ErrorKind::Write),
        },
        Stage::Flush => match e {
            EventView::Done => after_flush(s),
            _ => fail(s, ErrorKind::Flush),
        },
        Stage::Poll => match e {
            EventView::Polled(poll) => on_poll(s, poll),
            _ => fail(s, ErrorKind::CompressionWorkerLost),
        },
        Stage::Close => cascade(s, s.rotate_keep),
        Stage::CascadeExists(i) => match e {
            EventView::Exists(true) => (
                State { stage: Stage::CascadeRename(i), ..s },
                ActionView::Rename { from: s.backup(i as nat), to: s.backup((i + 1) as nat) },
            ),
            EventView::Exists(false) => cascade(s, (i - 1) as usize),
            _ => fail(s, ErrorKind::Rename),
        },
        Stage::CascadeRename(i) => match e {
            EventView::Done => cascade(s, (i - 1) as usize),
            _ => fail(s, ErrorKind::Rename),
        },
        Stage::RetireExists => match e {
            EventView::Exists(true) => retire_rename(s),
            EventView::Exists(false) => prune(s),
            _ => fail(s, ErrorKind::Rename),
        },
        Stage::RetireRename => match e {
            EventView::Done => if s.rotate_compress {
                spawn(s)
            } else {
                prune(s)
            },
            _ => fail(s, ErrorKind::Rename),
        },
        Stage::Spawn => match e {
            EventView::Done => prune(s),
            _ => fail(State { pending_compression: false, ..s }, ErrorKind::CompressionFailed),
        },
        Stage::PruneExists => match e {
            EventView::Exists(true) => (
                State { stage: Stage::PruneRemove, ..s },
                ActionView::Remove(s.backup((s.rotate_keep + 1) as nat)),
            ),
            EventView::Exists(false) => reopen_after_rotation(s),
            _ => fail(s, ErrorKind::Delete),
        },
        Stage::PruneRemove => match e {
            EventView::Done => reopen_after_rotation(s),
            _ => fail(s, ErrorKind::Delete),
        },
    }
}

} // verus!
