//! What a rotation does to the files, as one mathematical function, and the
//! proof that the appender played against the model computes it.
use crate::names::{
    backup_path, lemma_backup_paths_distinct, lemma_compression_paths_distinct, plain_path,
    temp_path,
};
use crate::protocol::{ActionView, Poll};
use crate::state::{begin_flush, cascade, retire, saturating_sum, step, Stage, State};
use crate::world::{
    budget, flushed, lemma_run_one, lemma_run_settles, lemma_run_split, renamed, respond, run,
    Job, World,
};
use vstd::prelude::*;
use vstd::utf8::valid_utf8;

verus! {

/// The files after the backups `i`, `i - 1`, ..., 1 of `base` that exist have
/// each moved up one slot, highest first.
pub open spec fn cascaded(files: Map<Seq<u8>, Seq<u8>>, base: Seq<u8>, gz: bool, i: nat) -> Map<
    Seq<u8>,
    Seq<u8>,
>
    decreases i,
{
    if i == 0 {
        files
    } else {
        let from = backup_path(base, i, gz);
        let to = backup_path(base, i + 1, gz);
        let moved = if files.contains_key(from) {
            renamed(files, from, to)
        } else {
            files
        };
        cascaded(moved, base, gz, (i - 1) as nat)
    }
}

/// The files after the active file, if there is one, has moved to slot 1
/// under its plain name.
pub open spec fn retired(files: Map<Seq<u8>, Seq<u8>>, base: Seq<u8>) -> Map<Seq<u8>, Seq<u8>> {
    if files.contains_key(base) {
        renamed(files, base, plain_path(base))
    } else {
        files
    }
}

/// The files without the backup one beyond the retention count.
pub open spec fn pruned(files: Map<Seq<u8>, Seq<u8>>, base: Seq<u8>, gz: bool, keep: nat) -> Map<
    Seq<u8>,
    Seq<u8>,
> {
    files.remove(backup_path(base, keep + 1, gz))
}

/// The files after a whole rotation: cascade, retire, prune, and a fresh,
/// empty active file.
pub open spec fn rotated_files(files: Map<Seq<u8>, Seq<u8>>, s: State) -> Map<Seq<u8>, Seq<u8>> {
    let keep = s.rotate_keep as nat;
    let gz = s.rotate_compress;
    pruned(retired(cascaded(files, s.path, gz, keep), s.path), s.path, gz, keep).insert(
        s.path,
        Seq::empty(),
    )
}

/// Whether a rotation from these files starts a compression: compression is
/// on and there is an active file to retire.
pub open spec fn compresses(files: Map<Seq<u8>, Seq<u8>>, s: State) -> bool {
    s.rotate_compress && files.contains_key(s.path)
}

/// The compression that a rotation of `s` starts.
pub open spec fn job_of(s: State) -> Job {
    Job { plain: plain_path(s.path), temp: temp_path(s.path), dest: backup_path(s.path, 1, true) }
}

/// The model after a whole rotation.
pub open spec fn rotated_world(s: State, w: World) -> World {
    World {
        files: rotated_files(w.files, s),
        handle: Some(s.path),
        now: w.now,
        report: if compresses(w.files, s) {
            Poll::Running
        } else {
            w.report
        },
        jobs: if compresses(w.files, s) {
            w.jobs.push(job_of(s))
        } else {
            w.jobs
        },
    }
}

/// The appender after a whole rotation.
pub open spec fn rotated_state(s: State, w: World) -> State {
    State {
        written_size: 0,
        next_reopen_check: saturating_sum(w.now, s.reopen_check_interval as int),
        open: true,
        pending_compression: compresses(w.files, s),
        stage: Stage::Idle,
        outgoing: Seq::empty(),
        ..s
    }
}

/// A cascade leaves alone every path that is none of the slots 1 to `i + 1`.
pub proof fn lemma_cascaded_elsewhere(
    files: Map<Seq<u8>, Seq<u8>>,
    base: Seq<u8>,
    gz: bool,
    i: nat,
    path: Seq<u8>,
)
    requires
        forall|j: nat| 1 <= j <= i + 1 ==> path != #[trigger] backup_path(base, j, gz),
    ensures
        cascaded(files, base, gz, i).contains_key(path) == files.contains_key(path),
        cascaded(files, base, gz, i)[path] == files[path],
    decreases i,
{
    if i > 0 {
        let from = backup_path(base, i, gz);
        let to = backup_path(base, i + 1, gz);
        let moved = if files.contains_key(from) {
            renamed(files, from, to)
        } else {
            files
        };
        assert(path != from);
        assert(path != to);
        lemma_cascaded_elsewhere(moved, base, gz, (i - 1) as nat, path);
    }
}

/// A cascade leaves the active file alone.
pub proof fn lemma_cascade_spares_active(
    files: Map<Seq<u8>, Seq<u8>>,
    base: Seq<u8>,
    gz: bool,
    i: nat,
)
    ensures
        cascaded(files, base, gz, i).contains_key(base) == files.contains_key(base),
        cascaded(files, base, gz, i)[base] == files[base],
{
    assert forall|j: nat| 1 <= j <= i + 1 implies base != #[trigger] backup_path(base, j, gz) by {
        lemma_backup_paths_distinct(base, j, j, gz);
    }
    lemma_cascaded_elsewhere(files, base, gz, i, base);
}

/// After a cascade from slot `i`, slot `j + 1` holds what slot `j` held, for
/// every `j` from 1 to `i`; what slot `i + 1` held before stays if slot `i`
/// was empty; and slot 1 is free.
pub proof fn lemma_cascaded_slot(
    files: Map<Seq<u8>, Seq<u8>>,
    base: Seq<u8>,
    gz: bool,
    i: nat,
    j: nat,
)
    requires
        1 <= j <= i,
    ensures
        ({
            let after = cascaded(files, base, gz, i);
            let here = backup_path(base, j, gz);
            let above = backup_path(base, j + 1, gz);
            let top = backup_path(base, i + 1, gz);
            &&& after.contains_key(above) <==> files.contains_key(here) || (j == i
                && files.contains_key(top))
            &&& files.contains_key(here) ==> after[above] == files[here]
            &&& !files.contains_key(here) && j == i ==> after[above] == files[top]
            &&& !after.contains_key(backup_path(base, 1, gz))
        }),
    decreases i,
{
    let from = backup_path(base, i, gz);
    let to = backup_path(base, i + 1, gz);
    let moved = if files.contains_key(from) {
        renamed(files, from, to)
    } else {
        files
    };
    let rest = (i - 1) as nat;
    let after = cascaded(moved, base, gz, rest);
    assert(after == cascaded(files, base, gz, i));
    lemma_backup_paths_distinct(base, i, i + 1, gz);
    assert(!moved.contains_key(from));
    if j == i {
        assert forall|k: nat| 1 <= k <= rest + 1 implies to != #[trigger] backup_path(
            base,
            k,
            gz,
        ) by {
            lemma_backup_paths_distinct(base, i + 1, k, gz);
        }
        lemma_cascaded_elsewhere(moved, base, gz, rest, to);
        if i == 1 {
            assert(after == moved);
        } else {
            lemma_cascaded_slot(moved, base, gz, rest, 1);
        }
    } else {
        lemma_cascaded_slot(moved, base, gz, rest, j);
        lemma_backup_paths_distinct(base, j, i, gz);
        lemma_backup_paths_distinct(base, j, i + 1, gz);
    }
}

/// The cascade, played against the model from slot `i` down, computes
/// [`cascaded`] and hands over to the retiring of the active file.
pub proof fn lemma_run_cascade(s: State, w: World, i: usize) -> (n: nat)
    requires
        valid_utf8(s.path),
        i <= s.rotate_keep < usize::MAX,
    ensures
        n <= 2 * i,
        run(cascade(s, i).0, w, cascade(s, i).1, n) == (
            retire(s).0,
            World { files: cascaded(w.files, s.path, s.rotate_compress, i as nat), ..w },
            retire(s).1,
        ),
    decreases i,
{
    if i == 0 {
        assert(World { files: w.files, ..w } == w);
        0
    } else {
        let (s1, a1) = cascade(s, i);
        let below = (i - 1) as usize;
        let from = s.backup(i as nat);
        let to = s.backup((i + 1) as nat);
        if w.files.contains_key(from) {
            let w2 = World { files: renamed(w.files, from, to), ..w };
            let n1 = lemma_run_cascade(s, w2, below);
            let s2 = State { stage: Stage::CascadeRename(i), ..s };
            let a2 = ActionView::Rename { from, to };
            assert(step(s1, respond(w, a1).1) == (s2, a2));
            lemma_run_one(s1, w, a1, 2 + n1);
            assert(step(s2, respond(w, a2).1) == cascade(s, below));
            assert(respond(w, a2).0 == w2);
            lemma_run_one(s2, w, a2, 1 + n1);
            assert(World { files: cascaded(w2.files, s.path, s.rotate_compress, below as nat), ..w2 }
                == World { files: cascaded(w.files, s.path, s.rotate_compress, i as nat), ..w });
            2 + n1
        } else {
            let n1 = lemma_run_cascade(s, w, below);
            assert(step(s1, respond(w, a1).1) == cascade(s, below));
            lemma_run_one(s1, w, a1, 1 + n1);
            1 + n1
        }
    }
}

/// Whether the appender and the model agree on the handle: one is held
/// exactly when the appender takes one to be held.
pub open spec fn attached(s: State, w: World) -> bool {
    s.open <==> w.handle is Some
}

/// The appender as it enters the cascade: the handle dropped, the report of
/// the last compression taken.
pub open spec fn gated(s: State) -> State {
    State { open: false, pending_compression: false, outgoing: Seq::empty(), ..s }
}

/// From the beginning of a flush that has reached the threshold, with no
/// compression still running, to the beginning of the cascade.
pub proof fn lemma_run_gate(s: State, w: World) -> (n: nat)
    requires
        s.rotate_keep < usize::MAX,
        attached(s, w),
        s.written_size >= s.rotate_size,
        s.pending_compression ==> w.report == Poll::Succeeded,
    ensures
        n <= 3,
        run(begin_flush(s).0, w, begin_flush(s).1, n) == (
            cascade(gated(s), s.rotate_keep).0,
            World { handle: None, ..w },
            cascade(gated(s), s.rotate_keep).1,
        ),
{
    reveal_with_fuel(run, 4);
    let flush: nat = if s.open {
        1
    } else {
        0
    };
    let poll: nat = if s.pending_compression {
        1
    } else {
        0
    };
    if !s.open {
        assert(World { handle: None, ..w } == w);
    }
    flush + poll + flush
}

/// From the retiring of the active file to the end of the rotation.
pub proof fn lemma_run_finish(s: State, w: World)
    requires
        valid_utf8(s.path),
        s.rotate_keep < usize::MAX,
        !s.open,
        !s.pending_compression,
        w.handle is None,
    ensures
        run(retire(s).0, w, retire(s).1, 8) == (
            State {
                written_size: 0,
                next_reopen_check: saturating_sum(w.now, s.reopen_check_interval as int),
                open: true,
                pending_compression: compresses(w.files, s),
                stage: Stage::Idle,
                outgoing: Seq::empty(),
                ..s
            },
            World {
                files: pruned(
                    retired(w.files, s.path),
                    s.path,
                    s.rotate_compress,
                    s.rotate_keep as nat,
                ).insert(s.path, Seq::empty()),
                handle: Some(s.path),
                now: w.now,
                report: if compresses(w.files, s) {
                    Poll::Running
                } else {
                    w.report
                },
                jobs: if compresses(w.files, s) {
                    w.jobs.push(job_of(s))
                } else {
                    w.jobs
                },
            },
            ActionView::Finished(Ok(0)),
        ),
{
    let keep = s.rotate_keep as nat;
    let beyond = backup_path(s.path, keep + 1, s.rotate_compress);
    lemma_backup_paths_distinct(s.path, 1, 1, false);
    lemma_backup_paths_distinct(s.path, keep + 1, 1, s.rotate_compress);
    lemma_compression_paths_distinct(s.path, keep + 1);
    let f1 = retired(w.files, s.path);
    let f2 = pruned(f1, s.path, s.rotate_compress, keep);
    assert(!f1.contains_key(s.path));
    assert(!f2.contains_key(s.path));
    if !f1.contains_key(beyond) {
        assert(f2 =~= f1);
    }
    reveal_with_fuel(run, 9);
}

/// A flush that has reached the threshold, with no compression still
/// running, rotates: played against the model it ends in success, with the
/// files, the model and the appender as [`rotated_files`], [`rotated_world`]
/// and [`rotated_state`] say.
pub proof fn lemma_flush_rotates(s: State, w: World)
    requires
        s.rotate_keep < usize::MAX,
        valid_utf8(s.path),
        attached(s, w),
        s.written_size >= s.rotate_size,
        s.pending_compression ==> w.report == Poll::Succeeded,
    ensures
        flushed(s, w) == (rotated_state(s, w), rotated_world(s, w), ActionView::Finished(Ok(0))),
{
    let keep = s.rotate_keep;
    let (s0, a0) = begin_flush(s);
    let g = gated(s);
    let w1 = World { handle: None, ..w };
    let n1 = lemma_run_gate(s, w);
    let n2 = lemma_run_cascade(g, w1, keep);
    let w2 = World { files: cascaded(w.files, s.path, s.rotate_compress, keep as nat), ..w1 };
    lemma_run_finish(g, w2);
    lemma_run_split(s0, w, a0, n1, n2 + 8);
    lemma_run_split(cascade(g, keep).0, w1, cascade(g, keep).1, n2, 8);
    lemma_run_settles(s0, w, a0, n1 + n2 + 8, budget(keep));
    lemma_cascade_spares_active(w.files, s.path, s.rotate_compress, keep as nat);
}

} // verus!
