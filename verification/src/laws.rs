//! What a commit leaves behind, proved over the model in [`crate::disk`].

use vstd::prelude::*;
use crate::disk::{commit_run, commit_steps, commit_until, write_run, Disk, Outcomes, Run};
use crate::error::ErrorView;
use crate::writer::{EventView, StageView, StepView, WriterView};

verus! {

/// A commit of an open writer that may not overwrite, against a destination
/// that exists, fails with already-exists. No file changes, and the writer
/// stays open.
pub proof fn commit_keeps_existing_destination(writer: WriterView, disk: Disk, outcomes: Outcomes)
    requires
        writer.stage is Open,
        !writer.overwrite,
        disk.holds(writer.dest),
    ensures
        commit_run(writer, disk, outcomes) == Run::refused(
            writer,
            disk,
            ErrorView::AlreadyExists(writer.dest),
        ),
{
    reveal_with_fuel(Run::drive, 5);
}

/// A commit of an open writer whose rename and sync succeed returns the
/// destination path and leaves the staged bytes under the destination's
/// name, provided that the writer may overwrite or the destination does not
/// exist yet.
pub proof fn commit_installs_staged_bytes(writer: WriterView, disk: Disk, outcomes: Outcomes)
    requires
        writer.stage is Open,
        writer.overwrite || !disk.holds(writer.dest),
        outcomes.persist is Ok,
        outcomes.sync is Ok,
    ensures
        commit_run(writer, disk, outcomes) == (Run {
            writer: writer.at(StageView::Committed),
            disk: disk.persist(writer.dest),
            step: StepView::Finish(Ok(writer.dest)),
        }),
{
    reveal_with_fuel(Run::drive, 5);
}

/// A commit whose rename fails reports the rename's message as an I/O
/// failure and changes no file.
pub proof fn failed_rename_changes_nothing(
    writer: WriterView,
    disk: Disk,
    outcomes: Outcomes,
    message: Seq<char>,
)
    requires
        writer.stage is Open,
        writer.overwrite || !disk.holds(writer.dest),
        outcomes.persist == Err::<(), Seq<char>>(message),
    ensures
        commit_run(writer, disk, outcomes) == Run::refused(
            writer.at(StageView::Failed),
            disk,
            ErrorView::Io(message),
        ),
{
    reveal_with_fuel(Run::drive, 5);
}

/// A commit whose sync fails removes the destination again and reports the
/// sync's message as an I/O failure.
pub proof fn failed_sync_is_rolled_back(
    writer: WriterView,
    disk: Disk,
    outcomes: Outcomes,
    sync: Seq<char>,
)
    requires
        writer.stage is Open,
        writer.overwrite || !disk.holds(writer.dest),
        outcomes.persist is Ok,
        outcomes.sync == Err::<(), Seq<char>>(sync),
        outcomes.removal is Ok,
    ensures
        commit_run(writer, disk, outcomes) == Run::refused(
            writer.at(StageView::Failed),
            disk.persist(writer.dest).remove(writer.dest),
            ErrorView::Io(sync),
        ),
        !commit_run(writer, disk, outcomes).disk.holds(writer.dest),
{
    reveal_with_fuel(Run::drive, 5);
}

/// A commit whose sync fails and whose removal fails too reports a rollback
/// failure with both messages, apart from every other error kind. The
/// destination then holds the staged bytes, unconfirmed.
pub proof fn failed_rollback_is_reported(
    writer: WriterView,
    disk: Disk,
    outcomes: Outcomes,
    sync: Seq<char>,
    removal: Seq<char>,
)
    requires
        writer.stage is Open,
        writer.overwrite || !disk.holds(writer.dest),
        outcomes.persist is Ok,
        outcomes.sync == Err::<(), Seq<char>>(sync),
        outcomes.removal == Err::<(), Seq<char>>(removal),
    ensures
        commit_run(writer, disk, outcomes) == Run::refused(
            writer.at(StageView::Failed),
            disk.persist(writer.dest),
            ErrorView::RollbackFailed { sync, removal },
        ),
{
    reveal_with_fuel(Run::drive, 5);
}

/// Every commit comes to an end within four file operations, whatever the
/// file system does. It never changes the destination path, the flag or the
/// staged bytes, and it leaves the writer open, committed or failed: open
/// exactly where it ends with already-exists, committed exactly where it
/// succeeds.
pub proof fn commit_finishes(writer: WriterView, disk: Disk, outcomes: Outcomes)
    requires
        writer.stage is Open,
    ensures
        ({
            let run = commit_run(writer, disk, outcomes);
            &&& run.step is Finish
            &&& run.writer.dest == writer.dest
            &&& run.writer.overwrite == writer.overwrite
            &&& run.disk.staged == disk.staged
            &&& run.writer.stage is Open || run.writer.stage is Committed
                || run.writer.stage is Failed
            &&& run.writer.stage is Open <==> run.step == StepView::Finish(
                Err(ErrorView::AlreadyExists(writer.dest)),
            )
            &&& run.writer.stage is Committed <==> run.step == StepView::Finish(
                Ok(writer.dest),
            )
        }),
{
    reveal_with_fuel(Run::drive, 5);
}

/// A run that is over stays as it is, however long it is driven on.
pub proof fn finished_run_is_fixed(run: Run, outcomes: Outcomes, steps: nat, more: nat)
    requires
        run.drive(outcomes, steps).step is Finish,
        steps <= more,
    ensures
        run.drive(outcomes, more) == run.drive(outcomes, steps),
    decreases steps,
{
    if steps > 0 {
        match run.step {
            StepView::Perform(action) => {
                let (disk, event) = run.disk.perform(run.writer.dest, action, outcomes);
                let (writer, step) = run.writer.resume(event);
                finished_run_is_fixed(
                    Run { writer, disk, step },
                    outcomes,
                    (steps - 1) as nat,
                    (more - 1) as nat,
                );
            },
            StepView::Finish(_) => {},
        }
    }
}

/// Atomicity. At every point of a commit, wherever it may be cut short and
/// whatever the file system did, the destination holds what it held before,
/// or the whole of the staged bytes, or it is gone. No other file is touched,
/// and the staged bytes stay as they were.
pub proof fn destination_is_never_partial(
    writer: WriterView,
    disk: Disk,
    outcomes: Outcomes,
    steps: nat,
)
    requires
        writer.stage is Open,
    ensures
        ({
            let dest = writer.dest;
            let after = commit_until(writer, disk, outcomes, steps).disk;
            &&& after.files.remove(dest) == disk.files.remove(dest)
            &&& after.staged == disk.staged
            &&& after.holds(dest) ==> after.files[dest] == disk.staged || (disk.holds(dest)
                && after.files[dest] == disk.files[dest])
        }),
{
    reveal_with_fuel(Run::drive, 5);
    let (first, step) = writer.commit();
    if steps > commit_steps() {
        commit_finishes(writer, disk, outcomes);
        finished_run_is_fixed(Run { writer: first, disk, step }, outcomes, commit_steps(), steps);
    }
    let after = commit_until(writer, disk, outcomes, steps).disk;
    assert(after.files.remove(writer.dest) =~= disk.files.remove(writer.dest));
}

/// The rename is the one point at which the new content becomes visible: a
/// commit that succeeds leaves the whole of the staged bytes under the
/// destination's name, and a commit that is cut short before its rename has
/// succeeded leaves every file as it was.
pub proof fn rename_is_the_commit_point(
    writer: WriterView,
    disk: Disk,
    outcomes: Outcomes,
    steps: nat,
)
    requires
        writer.stage is Open,
    ensures
        ({
            let whole = commit_run(writer, disk, outcomes);
            whole.step == StepView::Finish(Ok(writer.dest)) ==> whole.disk.holds(writer.dest)
                && whole.disk.files[writer.dest] == disk.staged
        }),
        ({
            let cut = commit_until(writer, disk, outcomes, steps);
            cut.writer.stage is Open || cut.writer.stage is Checking
                || cut.writer.stage is Persisting ==> cut.disk == disk
        }),
{
    reveal_with_fuel(Run::drive, 5);
    let (first, step) = writer.commit();
    if steps > commit_steps() {
        commit_finishes(writer, disk, outcomes);
        finished_run_is_fixed(Run { writer: first, disk, step }, outcomes, commit_steps(), steps);
    }
}

/// Once a commit has consumed the temporary file, nothing brings it back:
/// whatever is reported, the writer stays consumed, and it refuses every
/// write and every commit with invalid-state.
pub proof fn consumed_writer_stays_consumed(writer: WriterView, event: EventView, data: Seq<u8>)
    requires
        writer.stage.consumed(),
    ensures
        writer.resume(event).0.stage.consumed(),
        writer.commit() == writer.refuse(ErrorView::InvalidState),
        writer.write(data) == Err::<Seq<u8>, ErrorView>(ErrorView::InvalidState),
{
}

/// A writer whose temporary file a commit has consumed refuses every further
/// commit with invalid-state, whatever the file system would do: the commit
/// asks for no file operation, so no file changes.
pub proof fn spent_writer_refuses_commit(writer: WriterView, disk: Disk, outcomes: Outcomes)
    requires
        !(writer.stage is Open),
    ensures
        writer.commit() == writer.refuse(ErrorView::InvalidState),
        commit_run(writer, disk, outcomes) == Run::refused(writer, disk, ErrorView::InvalidState),
{
    reveal_with_fuel(Run::drive, 5);
}

/// Of two commits in a row on one writer, where the first did not end with
/// already-exists, the second fails with invalid-state, and the files are as
/// the first commit left them.
pub proof fn second_commit_is_refused(
    writer: WriterView,
    disk: Disk,
    first: Outcomes,
    second: Outcomes,
)
    requires
        writer.stage is Open,
        commit_run(writer, disk, first).step != StepView::Finish(
            Err(ErrorView::AlreadyExists(writer.dest)),
        ),
    ensures
        ({
            let once = commit_run(writer, disk, first);
            let twice = commit_run(once.writer, once.disk, second);
            twice == Run::refused(once.writer, once.disk, ErrorView::InvalidState)
        }),
{
    commit_finishes(writer, disk, first);
    let once = commit_run(writer, disk, first);
    spent_writer_refuses_commit(once.writer, once.disk, second);
}

/// After a commit that did not end with already-exists, a write is refused
/// with invalid-state; as it hands out no bytes to append, no file changes.
pub proof fn write_after_commit_is_refused(
    writer: WriterView,
    disk: Disk,
    outcomes: Outcomes,
    data: Seq<u8>,
)
    requires
        writer.stage is Open,
        commit_run(writer, disk, outcomes).step != StepView::Finish(
            Err(ErrorView::AlreadyExists(writer.dest)),
        ),
    ensures
        commit_run(writer, disk, outcomes).writer.write(data) == Err::<Seq<u8>, ErrorView>(
            ErrorView::InvalidState,
        ),
{
    commit_finishes(writer, disk, outcomes);
}

/// A one-shot write to a destination that does not exist yet, whose rename
/// and sync succeed, returns the destination path and leaves exactly the
/// payload there, with or without leave to overwrite.
pub proof fn write_creates_fresh_destination(
    files: Map<Seq<char>, Seq<u8>>,
    dest: Seq<char>,
    overwrite: bool,
    data: Seq<u8>,
    outcomes: Outcomes,
)
    requires
        !files.contains_key(dest),
        outcomes.persist is Ok,
        outcomes.sync is Ok,
    ensures
        ({
            let run = write_run(files, dest, overwrite, data, outcomes);
            &&& run.step == StepView::Finish(Ok(dest))
            &&& run.disk.files == files.insert(dest, data)
            &&& run.disk.files[dest] == data
        }),
{
    let writer = WriterView::open(dest, overwrite);
    let disk = Disk::fresh(files).append(data);
    assert(disk.staged =~= data);
    commit_installs_staged_bytes(writer, disk, outcomes);
}

/// A one-shot write without leave to overwrite, to a destination that
/// exists, fails with already-exists and leaves every file as it was,
/// whatever the file system would do.
pub proof fn write_keeps_existing_destination(
    files: Map<Seq<char>, Seq<u8>>,
    dest: Seq<char>,
    data: Seq<u8>,
    outcomes: Outcomes,
)
    requires
        files.contains_key(dest),
    ensures
        ({
            let run = write_run(files, dest, false, data, outcomes);
            &&& run.step == StepView::Finish(Err(ErrorView::AlreadyExists(dest)))
            &&& run.disk.files == files
        }),
{
    let writer = WriterView::open(dest, false);
    let disk = Disk::fresh(files).append(data);
    commit_keeps_existing_destination(writer, disk, outcomes);
}

/// A one-shot write with leave to overwrite, to a destination that exists,
/// whose rename and sync succeed, returns the destination path and replaces
/// what the destination held with exactly the payload.
pub proof fn write_replaces_existing_destination(
    files: Map<Seq<char>, Seq<u8>>,
    dest: Seq<char>,
    data: Seq<u8>,
    outcomes: Outcomes,
)
    requires
        files.contains_key(dest),
        outcomes.persist is Ok,
        outcomes.sync is Ok,
    ensures
        ({
            let run = write_run(files, dest, true, data, outcomes);
            &&& run.step == StepView::Finish(Ok(dest))
            &&& run.disk.files == files.insert(dest, data)
            &&& run.disk.files[dest] == data
        }),
{
    let writer = WriterView::open(dest, true);
    let disk = Disk::fresh(files).append(data);
    assert(disk.staged =~= data);
    commit_installs_staged_bytes(writer, disk, outcomes);
}

} // verus!
