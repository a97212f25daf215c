//! The compression worker: turns the plain file in slot 1 into the compressed
//! backup, off the writer's path.
//!
//! The worker reads the plain file, compresses it, stores the stream under a
//! temporary name, renames that to the backup's name and only then deletes the
//! plain file. The backup's name therefore never holds an incomplete stream.
use crate::codec::{compress, gzip_decoded};
use crate::protocol::{Action, ActionView, ErrorKind, Event, EventView};
use vstd::prelude::*;
use vstd::slice::slice_to_vec;

verus! {

/// The request whose answer the worker is waiting for.
#[derive(Clone, Copy, Debug, PartialEq, Eq, Structural)]
pub enum WorkerStage {
    /// Not started, or finished.
    Idle,
    /// The content of the plain file.
    Read,
    /// The outcome of storing the stream under the temporary name.
    Store,
    /// The outcome of renaming the temporary file to the backup.
    Rename,
    /// The outcome of deleting the plain file.
    Remove,
}

/// Everything the worker knows.
pub struct WorkerState {
    /// The file to compress.
    pub plain: Seq<u8>,
    /// Where the stream is written first.
    pub temp: Seq<u8>,
    /// The compressed backup.
    pub dest: Seq<u8>,
    /// What the worker is waiting for.
    pub stage: WorkerStage,
}

/// The worker ends with `result`.
pub open spec fn worker_finish(s: WorkerState, result: Result<usize, ErrorKind>) -> (
    WorkerState,
    ActionView,
) {
    (WorkerState { stage: WorkerStage::Idle, ..s }, ActionView::Finished(result))
}

/// The worker begins: it asks for the content of the plain file.
pub open spec fn worker_begin(s: WorkerState) -> (WorkerState, ActionView) {
    (WorkerState { stage: WorkerStage::Read, ..s }, ActionView::Read(s.plain))
}

/// The worker has the encoder's outcome: a stream goes to the temporary name,
/// and without one the worker fails, having changed nothing.
pub open spec fn worker_store(s: WorkerState, stream: Option<Seq<u8>>) -> (
    WorkerState,
    ActionView,
) {
    match stream {
        Some(stream) => (
            WorkerState { stage: WorkerStage::Store, ..s },
            ActionView::Store { path: s.temp, data: stream },
        ),
        None => worker_finish(s, Err(ErrorKind::CompressionFailed)),
    }
}

/// The worker takes the answer to its pending request, where that does not
/// involve the encoder. Any answer that does not fit fails the worker.
pub open spec fn worker_step(s: WorkerState, e: EventView) -> (WorkerState, ActionView) {
    match s.stage {
        WorkerStage::Idle => (s, ActionView::Idle),
        WorkerStage::Read => worker_finish(s, Err(ErrorKind::CompressionFailed)),
        WorkerStage::Store => match e {
            EventView::Done => (
                WorkerState { stage: WorkerStage::Rename, ..s },
                ActionView::Rename { from: s.temp, to: s.dest },
            ),
            _ => worker_finish(s, Err(ErrorKind::CompressionFailed)),
        },
        WorkerStage::Rename => match e {
            EventView::Done => (
                WorkerState { stage: WorkerStage::Remove, ..s },
                ActionView::Remove(s.plain),
            ),
            _ => worker_finish(s, Err(ErrorKind::CompressionFailed)),
        },
        WorkerStage::Remove => match e {
            EventView::Done => worker_finish(s, Ok(0)),
            _ => worker_finish(s, Err(ErrorKind::CompressionFailed)),
        },
    }
}

/// The stream that the encoder handed back, if it handed one back.
pub open spec fn stream_of(outcome: Result<Vec<u8>, ErrorKind>) -> Option<Seq<u8>> {
    match outcome {
        Ok(stream) => Some(stream@),
        Err(_) => None,
    }
}

/// Whether the worker, in state `s`, answers `e` by running the encoder.
pub open spec fn worker_encodes(s: WorkerState, e: EventView) -> bool {
    s.stage is Read && e is Loaded
}

/// A compression worker for one retired file.
pub struct Compressor {
    plain: Vec<u8>,
    temp: Vec<u8>,
    dest: Vec<u8>,
    stage: WorkerStage,
}

impl View for Compressor {
    type V = WorkerState;

    closed spec fn view(&self) -> WorkerState {
        WorkerState { plain: self.plain@, temp: self.temp@, dest: self.dest@, stage: self.stage }
    }
}

impl Compressor {
    /// Makes a worker that compresses `plain` into `dest` by way of `temp`.
    pub fn new(plain: Vec<u8>, temp: Vec<u8>, dest: Vec<u8>) -> (worker: Self)
        ensures
            worker@ == (WorkerState {
                plain: plain@,
                temp: temp@,
                dest: dest@,
                stage: WorkerStage::Idle,
            }),
    {
        Compressor { plain, temp, dest, stage: WorkerStage::Idle }
    }

    /// Begins the work.
    pub fn start(&mut self) -> (action: Action)
        ensures
            (final(self)@, action@) == worker_begin(old(self)@),
    {
        self.stage = WorkerStage::Read;
        Action::Read(slice_to_vec(self.plain.as_slice()))
    }

    /// Takes the encoder's outcome for the plain file's bytes and says what
    /// to do with it.
    pub fn store(&mut self, stream: Result<Vec<u8>, ErrorKind>) -> (action: Action)
        ensures
            (final(self)@, action@) == worker_store(old(self)@, stream_of(stream)),
    {
        match stream {
            Ok(data) => {
                self.stage = WorkerStage::Store;
                Action::Store { path: slice_to_vec(self.temp.as_slice()), data }
            },
            Err(_) => self.finish(Err(ErrorKind::CompressionFailed)),
        }
    }

    /// Takes the driver's answer to the pending request and says what to do
    /// next. The content of the plain file is compressed here; whatever the
    /// encoder does, a stream that is stored decodes to that content.
    pub fn resume(&mut self, event: Event) -> (action: Action)
        ensures
            !worker_encodes(old(self)@, event@) ==> (final(self)@, action@) == worker_step(
                old(self)@,
                event@,
            ),
            worker_encodes(old(self)@, event@) ==> exists|stream: Option<Seq<u8>>|
                {
                    &&& stream matches Some(z) ==> gzip_decoded(z) == Some(event@->Loaded_0)
                    &&& (final(self)@, action@) == #[trigger] worker_store(old(self)@, stream)
                },
    {
        let stage = self.stage;
        match stage {
            WorkerStage::Idle => Action::Idle,
            WorkerStage::Read => match event {
                Event::Loaded(data) => {
                    let stream = compress(data.as_slice());
                    let ghost outcome = stream_of(stream);
                    let action = self.store(stream);
                    assert((self@, action@) == worker_store(old(self)@, outcome));
                    action
                },
                _ => self.finish(Err(ErrorKind::CompressionFailed)),
            },
            WorkerStage::Store => match event {
                Event::Done => {
                    self.stage = WorkerStage::Rename;
                    Action::Rename {
                        from: slice_to_vec(self.temp.as_slice()),
                        to: slice_to_vec(self.dest.as_slice()),
                    }
                },
                _ => self.finish(Err(ErrorKind::CompressionFailed)),
            },
            WorkerStage::Rename => match event {
                Event::Done => {
                    self.stage = WorkerStage::Remove;
                    Action::Remove(slice_to_vec(self.plain.as_slice()))
                },
                _ => self.finish(Err(ErrorKind::CompressionFailed)),
            },
            WorkerStage::Remove => match event {
                Event::Done => self.finish(Ok(0)),
                _ => self.finish(Err(ErrorKind::CompressionFailed)),
            },
        }
    }

    fn finish(&mut self, result: Result<usize, ErrorKind>) -> (action: Action)
        ensures
            (final(self)@, action@) == worker_finish(old(self)@, result),
    {
        self.stage = WorkerStage::Idle;
        Action::Finished(result)
    }
}

} // verus!
