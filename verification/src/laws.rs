//! What the appender guarantees, proved over the model of [`crate::world`].
//!
//! Each law speaks of an operation played to its end against the model:
//! [`written`] for a write, [`flushed`] for a flush, [`compressed`] for the
//! compression worker.
use crate::codec::gzip_decoded;
use crate::compressor::{worker_begin, WorkerStage, WorkerState};
use crate::names::{
    backup_path, lemma_backup_paths_distinct, lemma_compression_paths_distinct, plain_path,
    temp_path,
};
use crate::protocol::{ActionView, ErrorKind, EventView, Poll};
use crate::rotation::{
    attached, cascaded, gated, job_of, lemma_cascade_spares_active, lemma_cascaded_elsewhere,
    lemma_cascaded_slot, lemma_flush_rotates, lemma_run_gate, pruned, retired, rotated_files,
    rotated_state, rotated_world,
};
use crate::state::{
    begin_flush, begin_write, initial, saturating_sum, step, Stage, State, Then,
};
use crate::world::{
    budget, compressed, flushed, lemma_run_settles, lemma_run_split, opened_content, run,
    worker_of, worker_run, written, World,
};
use vstd::prelude::*;
use vstd::utf8::valid_utf8;

verus! {

/// The invariant holds of a fresh appender, and beginning an operation or
/// taking an answer keeps it.
pub proof fn law_invariant_is_kept(s: State, e: EventView, data: Seq<u8>)
    requires
        s.wf(),
    ensures
        step(s, e).0.wf(),
        begin_write(s, data).0.wf(),
        begin_flush(s).0.wf(),
        s.rotate_keep < usize::MAX ==> initial(
            s.path,
            s.truncate,
            s.rotate_size,
            s.rotate_keep,
            s.rotate_compress,
        ).wf(),
{
}

/// The count starts over only when a file is opened or a rotation has
/// finished moving files; any other answer leaves it alone, but for a write,
/// which can only raise it.
pub proof fn law_count_only_grows(s: State, e: EventView)
    ensures
        ({
            let s1 = step(s, e).0;
            ||| s1.written_size == s.written_size
            ||| s.stage is Open && e is Opened && s1.written_size == e->Opened_0
            ||| s.stage is Write && e is Written && s1.written_size >= s.written_size
            ||| s1.stage == Stage::Clock(Then::Finish) && s1.written_size == 0
        }),
{
}

/// Whether the appender and the model agree: a handle is held exactly when
/// the appender takes one to be held, and it is a handle on the active path.
pub open spec fn in_step(s: State, w: World) -> bool {
    &&& attached(s, w)
    &&& s.open ==> w.handle == Some(s.path)
}

/// Whether nothing has disturbed the appender's file: the two agree, and
/// while a handle is held the active file exists.
pub open spec fn undisturbed(s: State, w: World) -> bool {
    &&& in_step(s, w)
    &&& s.open ==> w.files.contains_key(s.path)
}

/// Whether a write opens the file anew: no handle is held, or a look at the
/// active path is due and finds it gone.
pub open spec fn reopens(s: State, w: World) -> bool {
    !s.open || (w.now >= s.next_reopen_check && !w.files.contains_key(s.path))
}

/// The files after a write of `data`: the bytes are appended to the active
/// file, which is first opened anew where [`reopens`] says so. Bytes written
/// through a handle whose file is gone are lost.
pub open spec fn written_files(s: State, w: World, data: Seq<u8>) -> Map<Seq<u8>, Seq<u8>> {
    if reopens(s, w) {
        w.files.insert(s.path, opened_content(w.files, s.path, s.truncate) + data)
    } else if w.files.contains_key(s.path) {
        w.files.insert(s.path, w.files[s.path] + data)
    } else {
        w.files
    }
}

/// The count after a write of `data`: the bytes are added to the count, which
/// starts from the file's length where the file is opened anew.
pub open spec fn written_count(s: State, w: World, data: Seq<u8>) -> u64 {
    let before = if reopens(s, w) {
        opened_content(w.files, s.path, s.truncate).len() as u64
    } else {
        s.written_size
    };
    saturating_sum(before, data.len() as int)
}

/// The appender after a write of `data`.
pub open spec fn written_state(s: State, w: World, data: Seq<u8>) -> State {
    State {
        written_size: written_count(s, w, data),
        open: true,
        next_reopen_check: if w.now >= s.next_reopen_check {
            saturating_sum(w.now, s.reopen_check_interval as int)
        } else {
            s.next_reopen_check
        },
        stage: Stage::Idle,
        outgoing: Seq::empty(),
        ..s
    }
}

/// A write succeeds, reports every byte as written, and leaves the files and
/// the count as [`written_files`] and [`written_count`] say. It never moves,
/// renames or deletes a file, and never starts a compression.
pub proof fn law_write_appends(s: State, w: World, data: Seq<u8>)
    requires
        in_step(s, w),
        data.len() <= usize::MAX,
    ensures
        written(s, w, data) == (
            written_state(s, w, data),
            World { files: written_files(s, w, data), handle: Some(s.path), ..w },
            ActionView::Finished(Ok(data.len() as usize)),
        ),
{
    reveal_with_fuel(run, 5);
    let content = opened_content(w.files, s.path, s.truncate);
    assert(w.files.insert(s.path, content).insert(s.path, content + data) =~= w.files.insert(
        s.path,
        content + data,
    ));
    if !reopens(s, w) && !w.files.contains_key(s.path) {
        assert(World { files: w.files, handle: Some(s.path), ..w } == w);
    }
}

/// A write to an undisturbed file leaves it undisturbed: the appender and the
/// model still agree, the active file exists, and no other file has appeared
/// or gone.
pub proof fn law_write_keeps_step(s: State, w: World, data: Seq<u8>)
    requires
        undisturbed(s, w),
        data.len() <= usize::MAX,
    ensures
        undisturbed(written(s, w, data).0, written(s, w, data).1),
        written(s, w, data).0.open,
        written(s, w, data).1.files.contains_key(s.path),
        forall|path: Seq<u8>|
            path != s.path ==> (#[trigger] written(s, w, data).1.files.contains_key(path)
                <==> w.files.contains_key(path)),
{
    law_write_appends(s, w, data);
}

/// Whether every file has a length that can be reported, as a real file has.
pub open spec fn measurable(w: World) -> bool {
    forall|path: Seq<u8>| w.files.contains_key(path) ==> (#[trigger] w.files[path]).len() <= u64::MAX
}

/// Restart resume: the first write of a fresh appender that does not truncate
/// goes behind what the file already holds. Nothing of the old content is
/// overwritten, the new bytes follow it, and the count is the file's new
/// length, or `u64::MAX` where that length is beyond what the count can hold.
pub proof fn law_restart_resumes(
    path: Seq<u8>,
    rotate_size: u64,
    rotate_keep: usize,
    rotate_compress: bool,
    w: World,
    data: Seq<u8>,
)
    requires
        measurable(w),
        w.handle is None,
        w.files.contains_key(path),
        data.len() <= usize::MAX,
    ensures
        ({
            let s = initial(path, false, rotate_size, rotate_keep, rotate_compress);
            let (s1, w1, a1) = written(s, w, data);
            let before = w.files[path];
            let after = w1.files[path];
            &&& a1 == ActionView::Finished(Ok(data.len() as usize))
            &&& after == before + data
            &&& after.subrange(0, before.len() as int) == before
            &&& after.subrange(before.len() as int, after.len() as int) == data
            &&& s1.written_size == least(before.len() + data.len(), u64::MAX as nat)
        }),
{
    let s = initial(path, false, rotate_size, rotate_keep, rotate_compress);
    law_write_appends(s, w, data);
    let before = w.files[path];
    let after = written(s, w, data).1.files[path];
    assert(after.subrange(0, before.len() as int) =~= before);
    assert(after.subrange(before.len() as int, after.len() as int) =~= data);
}

/// Reopen correctness: when the active file is gone and a look at the path is
/// due, the next write makes the file anew and its bytes, all of them and
/// once, are what the file holds; the write after that goes behind them.
pub proof fn law_reopen_recreates(s: State, w: World, data: Seq<u8>, more: Seq<u8>)
    requires
        in_step(s, w),
        !w.files.contains_key(s.path),
        w.now >= s.next_reopen_check,
        data.len() <= usize::MAX,
        more.len() <= usize::MAX,
    ensures
        ({
            let (s1, w1, a1) = written(s, w, data);
            let (s2, w2, a2) = written(s1, w1, more);
            &&& a1 == ActionView::Finished(Ok(data.len() as usize))
            &&& w1.files.contains_key(s.path)
            &&& w1.files[s.path] == data
            &&& a2 == ActionView::Finished(Ok(more.len() as usize))
            &&& w2.files[s.path] == data + more
        }),
{
    law_write_appends(s, w, data);
    let (s1, w1, a1) = written(s, w, data);
    assert(w1.files[s.path] =~= data);
    law_write_appends(s1, w1, more);
}

/// A flush below the threshold changes no file and leaves the appender as it
/// was.
pub proof fn law_flush_below_threshold(s: State, w: World)
    requires
        attached(s, w),
        s.written_size < s.rotate_size,
    ensures
        flushed(s, w) == (
            State { stage: Stage::Idle, outgoing: Seq::empty(), ..s },
            w,
            ActionView::Finished(Ok(0)),
        ),
{
    reveal_with_fuel(run, 3);
}

/// At most one compression at a time: a flush that finds the last compression
/// still running ends in success at once. It renames nothing, deletes
/// nothing, starts no worker, keeps the handle, and the compression stays
/// pending.
pub proof fn law_pending_compression_blocks_rotation(s: State, w: World)
    requires
        attached(s, w),
        s.written_size >= s.rotate_size,
        s.pending_compression,
        w.report == Poll::Running,
    ensures
        flushed(s, w) == (
            State { stage: Stage::Idle, outgoing: Seq::empty(), ..s },
            w,
            ActionView::Finished(Ok(0)),
        ),
{
    reveal_with_fuel(run, 4);
}

/// A lost worker is fatal: a flush that finds the worker gone without a
/// report fails with `CompressionWorkerLost` and rotates nothing, and the
/// compression stays pending, so that every later rotation fails alike.
pub proof fn law_lost_worker_stays_pending(s: State, w: World)
    requires
        attached(s, w),
        s.written_size >= s.rotate_size,
        s.pending_compression,
        w.report == Poll::Lost,
    ensures
        flushed(s, w) == (
            State { stage: Stage::Idle, outgoing: Seq::empty(), ..s },
            w,
            ActionView::Finished(Err(ErrorKind::CompressionWorkerLost)),
        ),
{
    reveal_with_fuel(run, 4);
}

/// A reported failure is surfaced once: the flush that takes the report fails
/// with `CompressionFailed` and rotates nothing, neither renaming nor
/// deleting a file nor touching the count; and with the report taken the
/// compression is no longer pending, so that the next flush rotates.
pub proof fn law_failed_compression_is_consumed(s: State, w: World)
    requires
        s.rotate_keep < usize::MAX,
        valid_utf8(s.path),
        attached(s, w),
        s.written_size >= s.rotate_size,
        s.pending_compression,
        w.report == Poll::Failed,
    ensures
        ({
            let (s1, w1, a1) = flushed(s, w);
            &&& a1 == ActionView::Finished(Err(ErrorKind::CompressionFailed))
            &&& w1 == w
            &&& s1 == State {
                pending_compression: false,
                stage: Stage::Idle,
                outgoing: Seq::empty(),
                ..s
            }
            &&& flushed(s1, w1) == (
                rotated_state(s1, w1),
                rotated_world(s1, w1),
                ActionView::Finished(Ok(0)),
            )
        }),
{
    reveal_with_fuel(run, 4);
    let (s1, w1, a1) = flushed(s, w);
    lemma_flush_rotates(s1, w1);
}

/// A worker is asked for only by an appender that has no compression
/// pending, and from that moment the compression is pending.
pub proof fn law_one_compression_at_a_time(s: State, e: EventView)
    requires
        s.wf(),
        step(s, e).1 is SpawnCompression,
    ensures
        !s.pending_compression,
        step(s, e).0.pending_compression,
        step(s, e).0.stage == Stage::Spawn,
{
}

/// A worker that was asked for is never forgotten. Beginning an operation,
/// whatever it abandons, leaves a pending compression pending; and an answer
/// ends it only by bringing the worker's report, of success or of failure, or
/// by telling that the worker could not be started.
pub proof fn law_pending_compression_is_remembered(s: State, e: EventView, data: Seq<u8>)
    requires
        s.pending_compression,
    ensures
        begin_write(s, data).0.pending_compression,
        begin_flush(s).0.pending_compression,
        !step(s, e).0.pending_compression ==> {
            ||| s.stage is Poll && (e == EventView::Polled(Poll::Succeeded) || e
                == EventView::Polled(Poll::Failed))
            ||| s.stage is Spawn && !(e is Done)
        },
{
}

/// Rotation keeps the bytes: after a flush that has reached the threshold,
/// the active path holds an empty file and the plain name of slot 1 holds
/// exactly what the active file held. Without compression that is backup 1
/// itself, provided at least one backup is kept; with compression a worker
/// has been started to turn it into backup 1.
pub proof fn law_rotation_keeps_bytes(s: State, w: World)
    requires
        s.rotate_keep < usize::MAX,
        valid_utf8(s.path),
        attached(s, w),
        s.written_size >= s.rotate_size,
        s.pending_compression ==> w.report == Poll::Succeeded,
        w.files.contains_key(s.path),
        s.rotate_compress || s.rotate_keep >= 1,
    ensures
        ({
            let (s1, w1, a1) = flushed(s, w);
            let slot = plain_path(s.path);
            &&& a1 == ActionView::Finished(Ok(0))
            &&& s1.written_size == 0
            &&& s1.open && w1.handle == Some(s.path)
            &&& w1.files.contains_key(s.path) && w1.files[s.path] == Seq::<u8>::empty()
            &&& w1.files.contains_key(slot) && w1.files[slot] == w.files[s.path]
            &&& !s.rotate_compress ==> slot == s.backup(1) && w1.jobs == w.jobs
                && !s1.pending_compression
            &&& s.rotate_compress ==> w1.jobs == w.jobs.push(job_of(s)) && s1.pending_compression
        }),
{
    lemma_flush_rotates(s, w);
    let keep = s.rotate_keep as nat;
    let gz = s.rotate_compress;
    lemma_cascade_spares_active(w.files, s.path, gz, keep);
    lemma_backup_paths_distinct(s.path, 1, keep + 1, false);
    lemma_compression_paths_distinct(s.path, keep + 1);
}

/// Whether the backups of `base` that exist are exactly those in the slots 1
/// to `m`.
pub open spec fn backups_are(files: Map<Seq<u8>, Seq<u8>>, base: Seq<u8>, gz: bool, m: nat) -> bool {
    forall|j: nat|
        1 <= j ==> (files.contains_key(#[trigger] backup_path(base, j, gz)) <==> j <= m)
}

/// The lesser of two numbers.
pub open spec fn least(a: nat, b: nat) -> nat {
    if a <= b {
        a
    } else {
        b
    }
}

/// One rotation without compression grows a gap-free run of backups by one,
/// up to the retention count and never beyond it, and shifts what each slot
/// held to the next; the newest is in slot 1.
pub proof fn law_rotation_keeps_run(files: Map<Seq<u8>, Seq<u8>>, s: State, m: nat)
    requires
        !s.rotate_compress,
        files.contains_key(s.path),
        backups_are(files, s.path, false, m),
        m <= s.rotate_keep,
    ensures
        backups_are(rotated_files(files, s), s.path, false, least(m + 1, s.rotate_keep as nat)),
        rotated_files(files, s).contains_key(s.path),
        forall|j: nat|
            1 <= j < least(m + 1, s.rotate_keep as nat) ==> rotated_files(files, s)[#[trigger] backup_path(
                s.path,
                j + 1,
                false,
            )] == files[backup_path(s.path, j, false)],
        1 <= s.rotate_keep ==> rotated_files(files, s)[backup_path(s.path, 1, false)]
            == files[s.path],
{
    let base = s.path;
    let keep = s.rotate_keep as nat;
    let c = cascaded(files, base, false, keep);
    let r = retired(c, base);
    let p = pruned(r, base, false, keep);
    let after = rotated_files(files, s);
    let beyond = backup_path(base, keep + 1, false);
    let first = backup_path(base, 1, false);
    lemma_cascade_spares_active(files, base, false, keep);
    assert(c.contains_key(base) && c[base] == files[base]);
    assert(!files.contains_key(beyond));
    assert forall|j: nat| 1 <= j implies (after.contains_key(
        #[trigger] backup_path(base, j, false),
    ) <==> j <= least(m + 1, keep)) by {
        let here = backup_path(base, j, false);
        lemma_backup_paths_distinct(base, j, 1, false);
        lemma_backup_paths_distinct(base, j, keep + 1, false);
        if j > keep + 1 {
            assert forall|k: nat| 1 <= k <= keep + 1 implies here != #[trigger] backup_path(
                base,
                k,
                false,
            ) by {
                lemma_backup_paths_distinct(base, j, k, false);
            }
            lemma_cascaded_elsewhere(files, base, false, keep, here);
        } else if j >= 2 {
            lemma_cascaded_slot(files, base, false, keep, (j - 1) as nat);
        } else if keep >= 1 {
            lemma_cascaded_slot(files, base, false, keep, 1);
        }
    }
    assert forall|j: nat| 1 <= j < least(m + 1, keep) implies after[#[trigger] backup_path(
        base,
        j + 1,
        false,
    )] == files[backup_path(base, j, false)] by {
        lemma_backup_paths_distinct(base, j + 1, 1, false);
        lemma_backup_paths_distinct(base, j + 1, keep + 1, false);
        lemma_cascaded_slot(files, base, false, keep, j);
    }
    if keep >= 1 {
        lemma_backup_paths_distinct(base, 1, keep + 1, false);
    }
}

/// The appender and the model after a round for each of `batches`: the batch
/// is written, then the appender is flushed.
pub open spec fn cycled(s: State, w: World, batches: Seq<Seq<u8>>) -> (State, World)
    decreases batches.len(),
{
    if batches.len() == 0 {
        (s, w)
    } else {
        let (s1, w1) = cycled(s, w, batches.drop_last());
        let (s2, w2, _) = written(s1, w1, batches.last());
        let (s3, w3, _) = flushed(s2, w2);
        (s3, w3)
    }
}

/// Pruning is stable: start with no backups and no compression, and let every
/// round write enough to rotate. After `n` rounds there are exactly
/// `min(n, rotate_keep)` backups, in the slots from 1 up without a gap, and
/// the active file exists. So from `rotate_keep` rounds on there are exactly
/// `rotate_keep` backups, and no slot beyond `rotate_keep` is ever left
/// filled.
pub proof fn law_pruning_is_stable(s: State, w: World, batches: Seq<Seq<u8>>)
    requires
        s.rotate_keep < usize::MAX,
        valid_utf8(s.path),
        !s.rotate_compress,
        !s.pending_compression,
        undisturbed(s, w),
        backups_are(w.files, s.path, false, 0),
        forall|k: int|
            0 <= k < batches.len() ==> s.rotate_size <= (#[trigger] batches[k]).len()
                <= usize::MAX,
    ensures
        ({
            let (s1, w1) = cycled(s, w, batches);
            &&& backups_are(w1.files, s.path, false, least(batches.len(), s.rotate_keep as nat))
            &&& batches.len() >= 1 ==> w1.files.contains_key(s.path)
            &&& undisturbed(s1, w1)
            &&& !s1.pending_compression
            &&& s1 == State {
                written_size: s1.written_size,
                open: s1.open,
                next_reopen_check: s1.next_reopen_check,
                stage: s1.stage,
                outgoing: s1.outgoing,
                ..s
            }
        }),
    decreases batches.len(),
{
    if batches.len() > 0 {
        let before = batches.drop_last();
        let data = batches.last();
        law_pruning_is_stable(s, w, before);
        let (s1, w1) = cycled(s, w, before);
        let m = least(before.len(), s.rotate_keep as nat);
        law_write_appends(s1, w1, data);
        let (s2, w2, a2) = written(s1, w1, data);
        assert(w2.files.contains_key(s.path));
        assert forall|j: nat| 1 <= j implies (w2.files.contains_key(
            #[trigger] backup_path(s.path, j, false),
        ) <==> j <= m) by {
            lemma_backup_paths_distinct(s.path, j, j, false);
        }
        lemma_flush_rotates(s2, w2);
        law_rotation_keeps_run(w2.files, s2, m);
        assert(rotated_files(w2.files, s2) == rotated_files(w2.files, s));
    }
}

/// The look at the active path is throttled: the supervisor asks whether the
/// path exists only when the time has come, and then puts the next look a
/// full interval off.
pub proof fn law_reopen_check_is_throttled(s: State, now: u64)
    requires
        s.stage is Clock,
    ensures
        ({
            let (s1, a1) = step(s, EventView::Time(now));
            &&& a1 is CheckExists <==> now >= s.next_reopen_check
            &&& a1 is CheckExists ==> s1.next_reopen_check == saturating_sum(
                now,
                s.reopen_check_interval as int,
            )
            &&& !(a1 is CheckExists) ==> s1.next_reopen_check == s.next_reopen_check
        }),
{
}

/// A rotation of a file whose path is not UTF-8 fails with `InvalidPath`. The
/// handle is dropped and the report of the last compression taken, as they
/// are before any backup is named; no file is renamed or deleted.
pub proof fn law_invalid_path_stops_rotation(s: State, w: World)
    requires
        s.rotate_keep < usize::MAX,
        !valid_utf8(s.path),
        attached(s, w),
        s.written_size >= s.rotate_size,
        s.pending_compression ==> w.report == Poll::Succeeded,
    ensures
        flushed(s, w) == (
            State { stage: Stage::Idle, ..gated(s) },
            World { handle: None, ..w },
            ActionView::Finished(Err(ErrorKind::InvalidPath)),
        ),
{
    let (s0, a0) = begin_flush(s);
    let n = lemma_run_gate(s, w);
    lemma_run_split(s0, w, a0, n, 1);
    reveal_with_fuel(run, 2);
    lemma_run_settles(s0, w, a0, n + 1, budget(s.rotate_keep));
}

/// The compressed backup is whole: where the encoder hands back a stream, the
/// worker succeeds, the backup holds that stream, which decodes to exactly
/// what the plain file held, the plain and the temporary file are gone, and
/// no other file has changed.
pub proof fn law_compression_keeps_bytes(s: WorkerState, w: World, stream: Seq<u8>)
    requires
        w.files.contains_key(s.plain),
        s.plain != s.temp,
        s.plain != s.dest,
        s.temp != s.dest,
        gzip_decoded(stream) == Some(w.files[s.plain]),
    ensures
        ({
            let (s1, w1, a1) = compressed(s, w, Some(stream));
            &&& a1 == ActionView::Finished(Ok(0))
            &&& s1.stage == WorkerStage::Idle
            &&& w1.files.contains_key(s.dest)
            &&& gzip_decoded(w1.files[s.dest]) == Some(w.files[s.plain])
            &&& !w1.files.contains_key(s.plain)
            &&& !w1.files.contains_key(s.temp)
            &&& forall|path: Seq<u8>|
                path != s.plain && path != s.temp && path != s.dest ==> (
                #[trigger] w1.files.contains_key(path) <==> w.files.contains_key(path))
                    && w1.files[path] == w.files[path]
        }),
{
    reveal_with_fuel(worker_run, 5);
}

/// Where the encoder hands back nothing, or the plain file is missing, the
/// worker fails with `CompressionFailed` and has changed no file.
pub proof fn law_compression_failure_changes_nothing(
    s: WorkerState,
    w: World,
    stream: Option<Seq<u8>>,
)
    requires
        stream is None || !w.files.contains_key(s.plain),
    ensures
        compressed(s, w, stream) == (
            WorkerState { stage: WorkerStage::Idle, ..s },
            w,
            ActionView::Finished(Err(ErrorKind::CompressionFailed)),
        ),
{
    reveal_with_fuel(worker_run, 3);
}

/// The backup's name never holds a partial stream: however far the worker
/// has come, the backup is either as it was before or the complete stream.
pub proof fn law_backup_is_never_partial(
    s: WorkerState,
    w: World,
    stream: Option<Seq<u8>>,
    fuel: nat,
)
    requires
        s.plain != s.dest,
        s.temp != s.dest,
    ensures
        ({
            let w1 = worker_run(worker_begin(s).0, w, worker_begin(s).1, stream, fuel).1;
            ||| (w1.files.contains_key(s.dest) <==> w.files.contains_key(s.dest))
                && w1.files[s.dest] == w.files[s.dest]
            ||| w1.files.contains_key(s.dest) && Some(w1.files[s.dest]) == stream
        }),
{
    reveal_with_fuel(worker_run, 6);
}

/// Rotation with compression keeps the bytes: after a flush that has reached
/// the threshold and the compression it started, backup 1 holds a stream that
/// decodes to exactly what the active file held, and the plain and the
/// temporary file are gone.
pub proof fn law_compressed_rotation_keeps_bytes(s: State, w: World, stream: Seq<u8>)
    requires
        s.rotate_keep < usize::MAX,
        valid_utf8(s.path),
        attached(s, w),
        s.written_size >= s.rotate_size,
        s.pending_compression ==> w.report == Poll::Succeeded,
        w.files.contains_key(s.path),
        s.rotate_compress,
        gzip_decoded(stream) == Some(w.files[s.path]),
    ensures
        ({
            let (s1, w1, a1) = flushed(s, w);
            let (s2, w2, a2) = compressed(worker_of(w1.jobs.last()), w1, Some(stream));
            &&& a1 == ActionView::Finished(Ok(0))
            &&& a2 == ActionView::Finished(Ok(0))
            &&& w2.files.contains_key(s.backup(1))
            &&& gzip_decoded(w2.files[s.backup(1)]) == Some(w.files[s.path])
            &&& !w2.files.contains_key(plain_path(s.path))
            &&& !w2.files.contains_key(temp_path(s.path))
            &&& w2.files.contains_key(s.path) && w2.files[s.path] == Seq::<u8>::empty()
        }),
{
    law_rotation_keeps_bytes(s, w);
    let (s1, w1, a1) = flushed(s, w);
    lemma_compression_paths_distinct(s.path, 1);
    lemma_backup_paths_distinct(s.path, 1, 1, true);
    law_compression_keeps_bytes(worker_of(job_of(s)), w1, stream);
}

} // verus!
