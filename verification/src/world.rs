//! A ghost model of what the driver does: a filesystem with atomic rename, one
//! file handle, a clock and the completion slot of the compression worker.
//!
//! [`respond`] says how the model answers an action, and [`run`] plays the
//! appender against it. The laws of rotation are stated over these. The model
//! is the undisturbed case: nobody else touches the files while an operation
//! runs, and only the failures that follow from the files themselves occur.
use crate::compressor::{worker_begin, worker_encodes, worker_step, worker_store, WorkerState};
use crate::protocol::{ActionView, EventView, Poll};
use crate::state::{begin_flush, begin_write, step, State};
use vstd::prelude::*;

verus! {

/// The compression that a worker was started for.
pub struct Job {
    /// The file to compress.
    pub plain: Seq<u8>,
    /// Where the stream is written first.
    pub temp: Seq<u8>,
    /// The compressed backup.
    pub dest: Seq<u8>,
}

/// The driver's side, as far as the engine can tell.
pub struct World {
    /// The content of every file that exists, by path.
    pub files: Map<Seq<u8>, Seq<u8>>,
    /// The path that the handle was opened on, if a handle is held.
    pub handle: Option<Seq<u8>>,
    /// What the clock shows.
    pub now: u64,
    /// What a poll of the completion slot reports.
    pub report: Poll,
    /// The compressions started so far, oldest first.
    pub jobs: Seq<Job>,
}

/// What a file holds once it has been opened: nothing if it was missing or is
/// truncated, else what it held.
pub open spec fn opened_content(files: Map<Seq<u8>, Seq<u8>>, path: Seq<u8>, truncate: bool) -> Seq<
    u8,
> {
    if truncate || !files.contains_key(path) {
        Seq::empty()
    } else {
        files[path]
    }
}

/// The files after `from` has been renamed to `to`.
pub open spec fn renamed(files: Map<Seq<u8>, Seq<u8>>, from: Seq<u8>, to: Seq<u8>) -> Map<
    Seq<u8>,
    Seq<u8>,
> {
    files.remove(from).insert(to, files[from])
}

/// How the model performs an action: the world afterwards and the answer.
pub open spec fn respond(w: World, a: ActionView) -> (World, EventView) {
    match a {
        ActionView::Idle => (w, EventView::Done),
        ActionView::Finished(_) => (w, EventView::Done),
        ActionView::Clock => (w, EventView::Time(w.now)),
        ActionView::CheckExists(path) => (w, EventView::Exists(w.files.contains_key(path))),
        ActionView::Open { path, truncate } => {
            let content = opened_content(w.files, path, truncate);
            (
                World { files: w.files.insert(path, content), handle: Some(path), ..w },
                EventView::Opened(content.len() as u64),
            )
        },
        ActionView::Write(data) => match w.handle {
            Some(path) => if w.files.contains_key(path) {
                (
                    World { files: w.files.insert(path, w.files[path] + data), ..w },
                    EventView::Written(data.len() as usize),
                )
            } else {
                (w, EventView::Written(data.len() as usize))
            },
            None => (w, EventView::Failed),
        },
        ActionView::Flush => match w.handle {
            Some(_) => (w, EventView::Done),
            None => (w, EventView::Failed),
        },
        ActionView::Close => (World { handle: None, ..w }, EventView::Done),
        ActionView::Rename { from, to } => if w.files.contains_key(from) {
            (World { files: renamed(w.files, from, to), ..w }, EventView::Done)
        } else {
            (w, EventView::Failed)
        },
        ActionView::Remove(path) => if w.files.contains_key(path) {
            (World { files: w.files.remove(path), ..w }, EventView::Done)
        } else {
            (w, EventView::Failed)
        },
        ActionView::PollCompression => (w, EventView::Polled(w.report)),
        ActionView::SpawnCompression { plain, temp, dest } => (
            World { report: Poll::Running, jobs: w.jobs.push(Job { plain, temp, dest }), ..w },
            EventView::Done,
        ),
        ActionView::Read(path) => if w.files.contains_key(path) {
            (w, EventView::Loaded(w.files[path]))
        } else {
            (w, EventView::Failed)
        },
        ActionView::Store { path, data } => (
            World { files: w.files.insert(path, data), ..w },
            EventView::Done,
        ),
    }
}

/// Whether an action asks nothing of the driver: the operation is over.
pub open spec fn at_rest(a: ActionView) -> bool {
    a is Finished || a is Idle
}

/// The appender played against the model for at most `fuel` actions,
/// starting with `a`. It stops early once an operation is over.
pub open spec fn run(s: State, w: World, a: ActionView, fuel: nat) -> (State, World, ActionView)
    decreases fuel,
{
    if fuel == 0 || at_rest(a) {
        (s, w, a)
    } else {
        let (w1, e) = respond(w, a);
        let (s1, a1) = step(s, e);
        run(s1, w1, a1, (fuel - 1) as nat)
    }
}

/// Actions enough for any one operation of an appender that keeps `keep`
/// backups.
pub open spec fn budget(keep: usize) -> nat {
    (2 * keep + 12) as nat
}

/// A write of `data`, played to its end against the model.
pub open spec fn written(s: State, w: World, data: Seq<u8>) -> (State, World, ActionView) {
    let (s0, a0) = begin_write(s, data);
    run(s0, w, a0, budget(s.rotate_keep))
}

/// A flush, played to its end against the model.
pub open spec fn flushed(s: State, w: World) -> (State, World, ActionView) {
    let (s0, a0) = begin_flush(s);
    run(s0, w, a0, budget(s.rotate_keep))
}

/// One action of a run.
pub proof fn lemma_run_one(s: State, w: World, a: ActionView, fuel: nat)
    requires
        fuel >= 1,
        !at_rest(a),
    ensures
        run(s, w, a, fuel) == run(
            step(s, respond(w, a).1).0,
            respond(w, a).0,
            step(s, respond(w, a).1).1,
            (fuel - 1) as nat,
        ),
{
}

/// A run of `n + m` actions is a run of `n` followed by a run of `m`.
pub proof fn lemma_run_split(s: State, w: World, a: ActionView, n: nat, m: nat)
    ensures
        run(s, w, a, n + m) == ({
            let (s1, w1, a1) = run(s, w, a, n);
            run(s1, w1, a1, m)
        }),
    decreases n,
{
    if n == 0 || at_rest(a) {
        let (s1, w1, a1) = run(s, w, a, n);
        assert(run(s, w, a, n) == (s, w, a));
        if at_rest(a) {
            assert(run(s, w, a, n + m) == (s, w, a));
            assert(run(s, w, a, m) == (s, w, a));
        }
    } else {
        let (w1, e) = respond(w, a);
        let (s1, a1) = step(s, e);
        lemma_run_split(s1, w1, a1, (n - 1) as nat, m);
        assert(n + m - 1 == (n - 1) + m);
    }
}

/// Once an operation is over, more fuel changes nothing.
pub proof fn lemma_run_settles(s: State, w: World, a: ActionView, n: nat, m: nat)
    requires
        at_rest(run(s, w, a, n).2),
        n <= m,
    ensures
        run(s, w, a, m) == run(s, w, a, n),
{
    lemma_run_split(s, w, a, n, (m - n) as nat);
    let (s1, w1, a1) = run(s, w, a, n);
    assert(run(s1, w1, a1, (m - n) as nat) == (s1, w1, a1));
}

/// The compression worker played against the model for at most `fuel`
/// actions, starting with `a`. What the encoder hands back is not the model's
/// to say: `stream` stands for it.
pub open spec fn worker_run(
    s: WorkerState,
    w: World,
    a: ActionView,
    stream: Option<Seq<u8>>,
    fuel: nat,
) -> (WorkerState, World, ActionView)
    decreases fuel,
{
    if fuel == 0 || at_rest(a) {
        (s, w, a)
    } else {
        let (w1, e) = respond(w, a);
        let (s1, a1) = if worker_encodes(s, e) {
            worker_store(s, stream)
        } else {
            worker_step(s, e)
        };
        worker_run(s1, w1, a1, stream, (fuel - 1) as nat)
    }
}

/// The worker for a compression that was started.
pub open spec fn worker_of(job: Job) -> WorkerState {
    WorkerState {
        plain: job.plain,
        temp: job.temp,
        dest: job.dest,
        stage: crate::compressor::WorkerStage::Idle,
    }
}

/// A compression played to its end against the model, the encoder handing
/// back `stream`.
pub open spec fn compressed(s: WorkerState, w: World, stream: Option<Seq<u8>>) -> (
    WorkerState,
    World,
    ActionView,
) {
    let (s0, a0) = worker_begin(s);
    worker_run(s0, w, a0, stream, 4)
}

} // verus!
