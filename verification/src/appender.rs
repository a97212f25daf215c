//! The appender: owner of the write-size counter, the reopen throttle and the
//! rotation in progress.
//!
//! The driver calls [`FileAppender::write`] or [`FileAppender::flush`] to
//! begin an operation, performs the action returned, and hands the outcome to
//! [`FileAppender::resume`] until that returns [`Action::Finished`].
use crate::names::{backup_name, compression_names, plain_path, temp_path};
use crate::protocol::{Action, ErrorKind, Event, Poll};
use crate::state::{
    after_flush, begin_flush, begin_write, cascade, close, fail, finish, initial, on_poll,
    on_time, proceed, prune, reopen_after_rotation, retire, retire_rename, rotate, spawn, step,
    supervise, Stage, State, Then,
};
use vstd::prelude::*;
use vstd::slice::slice_to_vec;
use vstd::utf8::valid_utf8;

verus! {

/// Tells whether `bytes` is well-formed UTF-8.
///
/// Trusted: the body asks `core::str::from_utf8`, which std documents to
/// succeed exactly on well-formed UTF-8.
#[verifier::external_body]
fn is_utf8(bytes: &[u8]) -> (ok: bool)
    ensures
        ok == valid_utf8(bytes@),
{
    core::str::from_utf8(bytes).is_ok()
}

/// An append-only log sink that rotates its file by size.
pub struct FileAppender {
    path: Vec<u8>,
    truncate: bool,
    written_size: u64,
    rotate_size: u64,
    rotate_keep: usize,
    rotate_compress: bool,
    open: bool,
    pending_compression: bool,
    next_reopen_check: u64,
    reopen_check_interval: u64,
    stage: Stage,
    outgoing: Vec<u8>,
}

impl View for FileAppender {
    type V = State;

    closed spec fn view(&self) -> State {
        State {
            path: self.path@,
            truncate: self.truncate,
            written_size: self.written_size,
            rotate_size: self.rotate_size,
            rotate_keep: self.rotate_keep,
            rotate_compress: self.rotate_compress,
            open: self.open,
            pending_compression: self.pending_compression,
            next_reopen_check: self.next_reopen_check,
            reopen_check_interval: self.reopen_check_interval,
            stage: self.stage,
            outgoing: self.outgoing@,
        }
    }
}

impl FileAppender {
    /// Every appender meets [`State::wf`], at every moment.
    #[verifier::type_invariant]
    spec fn inv(self) -> bool {
        self@.wf()
    }

    /// Makes an appender for the file at `path`. Nothing is opened yet.
    ///
    /// `truncate` says whether opening discards what the file holds; a flush
    /// rotates once `rotate_size` bytes are in the file; `rotate_keep` backups
    /// are kept, compressed if `rotate_compress` is set. `rotate_keep` must be
    /// below `usize::MAX`, so that the slot beyond the last backup has a number.
    pub fn new(
        path: Vec<u8>,
        truncate: bool,
        rotate_size: u64,
        rotate_keep: usize,
        rotate_compress: bool,
    ) -> (appender: Self)
        requires
            rotate_keep < usize::MAX,
        ensures
            appender@ == initial(path@, truncate, rotate_size, rotate_keep, rotate_compress),
            appender@.wf(),
    {
        FileAppender {
            path,
            truncate,
            written_size: 0,
            rotate_size,
            rotate_keep,
            rotate_compress,
            open: false,
            pending_compression: false,
            next_reopen_check: 0,
            reopen_check_interval: 1000,
            stage: Stage::Idle,
            outgoing: Vec::new(),
        }
    }

    /// The number of bytes counted in the current file.
    pub fn written_size(&self) -> (n: u64)
        ensures
            n == self@.written_size,
    {
        self.written_size
    }

    /// Whether the appender takes the driver to hold a handle.
    pub fn is_open(&self) -> (open: bool)
        ensures
            open == self@.open,
    {
        self.open
    }

    /// Whether a compression worker was asked for whose report, of success
    /// or of failure, has not been taken yet.
    pub fn compression_pending(&self) -> (pending: bool)
        ensures
            pending == self@.pending_compression,
    {
        self.pending_compression
    }

    /// Whether no operation is in progress.
    pub fn is_idle(&self) -> (idle: bool)
        ensures
            idle == self@.idle(),
    {
        match self.stage {
            Stage::Idle => true,
            _ => false,
        }
    }

    /// The path of backup `i`: `path.i`, or `path.i.gz` when backups are
    /// compressed. Fails with `InvalidPath` exactly when the active path is
    /// not UTF-8.
    pub fn rotated_path(&self, i: usize) -> (result: Result<Vec<u8>, ErrorKind>)
        ensures
            match result {
                Ok(path) => valid_utf8(self@.path) && path@ == self@.backup(i as nat),
                Err(kind) => !valid_utf8(self@.path) && kind == ErrorKind::InvalidPath,
            },
    {
        if is_utf8(self.path.as_slice()) {
            Ok(backup_name(&self.path, i, self.rotate_compress))
        } else {
            Err(ErrorKind::InvalidPath)
        }
    }

    /// The plain and the temporary path that compressing backup 1 uses:
    /// `path.1` and `path.1.gz.temp`. Fails with `InvalidPath` exactly when the
    /// active path is not UTF-8.
    pub fn rotated_paths_for_compression(&self) -> (result: Result<(Vec<u8>, Vec<u8>), ErrorKind>)
        ensures
            match result {
                Ok(names) => {
                    &&& valid_utf8(self@.path)
                    &&& names.0@ == plain_path(self@.path)
                    &&& names.1@ == temp_path(self@.path)
                },
                Err(kind) => !valid_utf8(self@.path) && kind == ErrorKind::InvalidPath,
            },
    {
        if is_utf8(self.path.as_slice()) {
            Ok(compression_names(&self.path))
        } else {
            Err(ErrorKind::InvalidPath)
        }
    }

    /// Begins a write of `data`. Whatever was in progress is abandoned.
    ///
    /// The reopen supervisor runs first; the bytes go out once a handle is
    /// established. The operation finishes with the number of bytes that the
    /// driver reports as written.
    pub fn write(&mut self, data: Vec<u8>) -> (action: Action)
        ensures
            final(self)@.wf(),
            (final(self)@, action@) == begin_write(old(self)@, data@),
    {
        proof {
            use_type_invariant(&*self);
        }
        self.outgoing = data;
        self.stage = Stage::Clock(Then::Write);
        proof {
            use_type_invariant(&*self);
        }
        Action::Clock
    }

    /// Begins a flush. Whatever was in progress is abandoned.
    ///
    /// Buffered bytes are flushed first. Then, and only then, the threshold is
    /// looked at, and the file rotates if it has been reached.
    pub fn flush(&mut self) -> (action: Action)
        ensures
            final(self)@.wf(),
            (final(self)@, action@) == begin_flush(old(self)@),
    {
        proof {
            use_type_invariant(&*self);
        }
        self.outgoing = Vec::new();
        let action = if self.open {
            self.stage = Stage::Flush;
            Action::Flush
        } else {
            self.after_flush()
        };
        proof {
            use_type_invariant(&*self);
        }
        action
    }

    /// Takes the driver's answer to the pending request and says what to do
    /// next. An answer that does not fit the request fails the operation with
    /// the kind of that request; an answer to no request is ignored.
    pub fn resume(&mut self, event: Event) -> (action: Action)
        ensures
            final(self)@.wf(),
            (final(self)@, action@) == step(old(self)@, event@),
    {
        proof {
            use_type_invariant(&*self);
        }
        let stage = self.stage;
        let action = match stage {
            Stage::Idle => Action::Idle,
            Stage::Clock(then) => match event {
                Event::Time(now) => self.on_time(now, then),
                _ => self.fail(ErrorKind::NotOpen),
            },
            Stage::Exists(then) => match event {
                Event::Exists(exists) => self.supervise(exists, then),
                _ => self.fail(ErrorKind::NotOpen),
            },
            Stage::Open(then) => match event {
                Event::Opened(len) => {
                    self.open = true;
                    self.written_size = len;
                    self.proceed(then)
                },
                _ => self.fail(ErrorKind::Open),
            },
            Stage::Write => match event {
                Event::Written(n) => {
                    self.written_size = self.written_size.saturating_add(n as u64);
                    self.finish(Ok(n))
                },
                _ => self.fail(ErrorKind::Write),
            },
            Stage::Flush => match event {
                Event::Done => self.after_flush(),
                _ => self.fail(ErrorKind::Flush),
            },
            Stage::Poll => match event {
                Event::Polled(poll) => self.on_poll(poll),
                _ => self.fail(ErrorKind::CompressionWorkerLost),
            },
            _ => self.resume_rotation(stage, event),
        };
        proof {
            use_type_invariant(&*self);
        }
        action
    }

    /// The part of `resume` that carries a rotation on, from the dropping of
    /// the handle to the deleting of the oldest backup.
    fn resume_rotation(&mut self, stage: Stage, event: Event) -> (action: Action)
        requires
            stage == old(self)@.stage,
            !(stage is Idle || stage is Clock || stage is Exists || stage is Open || stage is Write
                || stage is Flush || stage is Poll),
        ensures
            (final(self)@, action@) == step(old(self)@, event@),
    {
        proof {
            use_type_invariant(&*self);
        }
        match stage {
            Stage::Close => {
                let keep = self.rotate_keep;
                self.cascade(keep)
            },
            Stage::CascadeExists(i) => match event {
                Event::Exists(true) => {
                    let from = backup_name(&self.path, i, self.rotate_compress);
                    let to = backup_name(&self.path, i + 1, self.rotate_compress);
                    self.stage = Stage::CascadeRename(i);
                    Action::Rename { from, to }
                },
                Event::Exists(false) => self.cascade(i - 1),
                _ => self.fail(ErrorKind::Rename),
            },
            Stage::CascadeRename(i) => match event {
                Event::Done => self.cascade(i - 1),
                _ => self.fail(ErrorKind::Rename),
            },
            Stage::RetireExists => match event {
                Event::Exists(true) => self.retire_rename(),
                Event::Exists(false) => self.prune(),
                _ => self.fail(ErrorKind::Rename),
            },
            Stage::RetireRename => match event {
                Event::Done => if self.rotate_compress {
                    self.spawn()
                } else {
                    self.prune()
                },
                _ => self.fail(ErrorKind::Rename),
            },
            Stage::Spawn => match event {
                Event::Done => self.prune(),
                _ => {
                    self.pending_compression = false;
                    self.fail(ErrorKind::CompressionFailed)
                },
            },
            Stage::PruneExists => match event {
                Event::Exists(true) => {
                    let path = backup_name(&self.path, self.rotate_keep + 1, self.rotate_compress);
                    self.stage = Stage::PruneRemove;
                    Action::Remove(path)
                },
                Event::Exists(false) => self.reopen_after_rotation(),
                _ => self.fail(ErrorKind::Delete),
            },
            Stage::PruneRemove => match event {
                Event::Done => self.reopen_after_rotation(),
                _ => self.fail(ErrorKind::Delete),
            },
            _ => Action::Idle,
        }
    }

    fn finish(&mut self, result: Result<usize, ErrorKind>) -> (action: Action)
        ensures
            (final(self)@, action@) == finish(old(self)@, result),
    {
        proof {
            use_type_invariant(&*self);
        }
        self.stage = Stage::Idle;
        self.outgoing = Vec::new();
        Action::Finished(result)
    }

    fn fail(&mut self, kind: ErrorKind) -> (action: Action)
        ensures
            (final(self)@, action@) == fail(old(self)@, kind),
    {
        proof {
            use_type_invariant(&*self);
        }
        self.finish(Err(kind))
    }

    fn proceed(&mut self, then: Then) -> (action: Action)
        ensures
            (final(self)@, action@) == proceed(old(self)@, then),
    {
        proof {
            use_type_invariant(&*self);
        }
        match then {
            Then::Write => {
                let mut data = Vec::new();
                core::mem::swap(&mut data, &mut self.outgoing);
                self.stage = Stage::Write;
                Action::Write(data)
            },
            Then::Finish => self.finish(Ok(0)),
        }
    }

    /// The reopen supervisor's decision, given whether the active path exists.
    fn supervise(&mut self, exists: bool, then: Then) -> (action: Action)
        ensures
            (final(self)@, action@) == supervise(old(self)@, exists, then),
    {
        proof {
            use_type_invariant(&*self);
        }
        if !self.open || !exists {
            self.open = false;
            self.stage = Stage::Open(then);
            Action::Open { path: slice_to_vec(self.path.as_slice()), truncate: self.truncate }
        } else {
            self.proceed(then)
        }
    }

    /// The reopen supervisor's throttle, given the time.
    fn on_time(&mut self, now: u64, then: Then) -> (action: Action)
        requires
            old(self)@.stage == Stage::Clock(then),
        ensures
            (final(self)@, action@) == on_time(old(self)@, now, then),
    {
        proof {
            use_type_invariant(&*self);
        }
        if now >= self.next_reopen_check {
            self.next_reopen_check = now.saturating_add(self.reopen_check_interval);
            self.stage = Stage::Exists(then);
            Action::CheckExists(slice_to_vec(self.path.as_slice()))
        } else {
            self.supervise(true, then)
        }
    }

    fn reopen_after_rotation(&mut self) -> (action: Action)
        requires
            !old(self)@.open,
        ensures
            (final(self)@, action@) == reopen_after_rotation(old(self)@),
    {
        proof {
            use_type_invariant(&*self);
        }
        self.written_size = 0;
        self.next_reopen_check = 0;
        self.stage = Stage::Clock(Then::Finish);
        Action::Clock
    }

    fn prune(&mut self) -> (action: Action)
        requires
            !old(self)@.open,
        ensures
            (final(self)@, action@) == prune(old(self)@),
    {
        proof {
            use_type_invariant(&*self);
        }
        match self.rotated_path(self.rotate_keep + 1) {
            Ok(path) => {
                self.stage = Stage::PruneExists;
                Action::CheckExists(path)
            },
            Err(kind) => self.fail(kind),
        }
    }

    fn spawn(&mut self) -> (action: Action)
        requires
            !old(self)@.open,
            !old(self)@.pending_compression,
            valid_utf8(old(self)@.path),
        ensures
            (final(self)@, action@) == spawn(old(self)@),
    {
        proof {
            use_type_invariant(&*self);
        }
        let (plain, temp) = compression_names(&self.path);
        let dest = backup_name(&self.path, 1, true);
        self.stage = Stage::Spawn;
        self.pending_compression = true;
        Action::SpawnCompression { plain, temp, dest }
    }

    fn retire_rename(&mut self) -> (action: Action)
        requires
            !old(self)@.open,
            !old(self)@.pending_compression,
        ensures
            (final(self)@, action@) == retire_rename(old(self)@),
    {
        proof {
            use_type_invariant(&*self);
        }
        match self.rotated_paths_for_compression() {
            Ok(names) => {
                self.stage = Stage::RetireRename;
                Action::Rename { from: slice_to_vec(self.path.as_slice()), to: names.0 }
            },
            Err(kind) => self.fail(kind),
        }
    }

    fn retire(&mut self) -> (action: Action)
        requires
            !old(self)@.open,
            !old(self)@.pending_compression,
        ensures
            (final(self)@, action@) == retire(old(self)@),
    {
        proof {
            use_type_invariant(&*self);
        }
        self.stage = Stage::RetireExists;
        Action::CheckExists(slice_to_vec(self.path.as_slice()))
    }

    fn cascade(&mut self, i: usize) -> (action: Action)
        requires
            i <= old(self)@.rotate_keep,
            !old(self)@.open,
            !old(self)@.pending_compression,
        ensures
            (final(self)@, action@) == cascade(old(self)@, i),
    {
        proof {
            use_type_invariant(&*self);
        }
        if i >= 1 {
            match self.rotated_path(i) {
                Ok(path) => {
                    self.stage = Stage::CascadeExists(i);
                    Action::CheckExists(path)
                },
                Err(kind) => self.fail(kind),
            }
        } else {
            self.retire()
        }
    }

    fn close(&mut self) -> (action: Action)
        requires
            !old(self)@.pending_compression,
        ensures
            (final(self)@, action@) == close(old(self)@),
    {
        proof {
            use_type_invariant(&*self);
        }
        if self.open {
            self.open = false;
            self.stage = Stage::Close;
            Action::Close
        } else {
            let keep = self.rotate_keep;
            self.cascade(keep)
        }
    }

    /// Rotates the file: compression gate, close, cascade, retire, prune,
    /// reopen. This begins the sequence; `resume` carries it on.
    fn rotate(&mut self) -> (action: Action)
        ensures
            (final(self)@, action@) == rotate(old(self)@),
    {
        proof {
            use_type_invariant(&*self);
        }
        if self.pending_compression {
            self.stage = Stage::Poll;
            Action::PollCompression
        } else {
            self.close()
        }
    }

    fn on_poll(&mut self, poll: Poll) -> (action: Action)
        ensures
            (final(self)@, action@) == on_poll(old(self)@, poll),
    {
        proof {
            use_type_invariant(&*self);
        }
        match poll {
            Poll::Running => self.finish(Ok(0)),
            Poll::Lost => self.fail(ErrorKind::CompressionWorkerLost),
            Poll::Failed => {
                self.pending_compression = false;
                self.fail(ErrorKind::CompressionFailed)
            },
            Poll::Succeeded => {
                self.pending_compression = false;
                self.close()
            },
        }
    }

    fn after_flush(&mut self) -> (action: Action)
        ensures
            (final(self)@, action@) == after_flush(old(self)@),
    {
        proof {
            use_type_invariant(&*self);
        }
        if self.written_size >= self.rotate_size {
            self.rotate()
        } else {
            self.finish(Ok(0))
        }
    }
}

} // verus!
