//! A model of the file system under one writer.
//!
//! The writer decides; somebody else performs. This module says what a
//! faithful performer does to the files for each [`Action`], in the
//! plainest terms: a rename puts the staged bytes under the destination's
//! name, a removal takes that name away, and nothing else changes anything.
//! Which operations fail is a parameter, so that what is proved of a run
//! holds whatever the file system does.

use vstd::prelude::*;
use crate::error::ErrorView;
use crate::writer::{Action, EventView, StepView, WriterView};

verus! {

/// The files that matter to one writer.
pub struct Disk {
    /// The files that are visible under a name, each with its contents.
    pub files: Map<Seq<char>, Seq<u8>>,
    /// The bytes that have been appended to the temporary file.
    pub staged: Seq<u8>,
}

/// How each file operation of a commit goes, should the commit come to it:
/// `Ok`, or the system's message.
pub struct Outcomes {
    pub persist: Result<(), Seq<char>>,
    pub sync: Result<(), Seq<char>>,
    pub removal: Result<(), Seq<char>>,
}

impl Disk {
    /// A disk with these visible files and an empty temporary file.
    pub open spec fn fresh(files: Map<Seq<char>, Seq<u8>>) -> Disk {
        Disk { files, staged: Seq::empty() }
    }

    /// Whether a file is visible under `path`.
    pub open spec fn holds(self, path: Seq<char>) -> bool {
        self.files.contains_key(path)
    }

    /// The disk after `bytes` were appended to the temporary file.
    pub open spec fn append(self, bytes: Seq<u8>) -> Disk {
        Disk { staged: self.staged + bytes, ..self }
    }

    /// The disk after the temporary file was renamed to `dest`.
    pub open spec fn persist(self, dest: Seq<char>) -> Disk {
        Disk { files: self.files.insert(dest, self.staged), ..self }
    }

    /// The disk after `dest` was removed.
    pub open spec fn remove(self, dest: Seq<char>) -> Disk {
        Disk { files: self.files.remove(dest), ..self }
    }

    /// The disk after `action` was performed for the destination `dest`, and
    /// the event that reports it. An operation that fails leaves the disk as
    /// it was.
    pub open spec fn perform(self, dest: Seq<char>, action: Action, outcomes: Outcomes) -> (
        Disk,
        EventView,
    ) {
        match action {
            Action::CheckDestination => (self, EventView::DestinationChecked(self.holds(dest))),
            Action::Persist => (
                if outcomes.persist is Ok {
                    self.persist(dest)
                } else {
                    self
                },
                EventView::Persisted(outcomes.persist),
            ),
            Action::Sync => (self, EventView::Synced(outcomes.sync)),
            Action::RemoveDestination => (
                if outcomes.removal is Ok {
                    self.remove(dest)
                } else {
                    self
                },
                EventView::Removed(outcomes.removal),
            ),
        }
    }
}

/// A writer, the disk it works on, and the step that is due.
pub struct Run {
    pub writer: WriterView,
    pub disk: Disk,
    pub step: StepView,
}

impl Run {
    /// A run that is over with `error`.
    pub open spec fn refused(writer: WriterView, disk: Disk, error: ErrorView) -> Run {
        Run { writer, disk, step: StepView::Finish(Err(error)) }
    }

    /// Performs the action that is due and lets the writer answer the report,
    /// up to `steps` times or until the commit is over.
    pub open spec fn drive(self, outcomes: Outcomes, steps: nat) -> Run
        decreases steps,
    {
        if steps == 0 {
            self
        } else {
            match self.step {
                StepView::Perform(action) => {
                    let (disk, event) = self.disk.perform(self.writer.dest, action, outcomes);
                    let (writer, step) = self.writer.resume(event);
                    Run { writer, disk, step }.drive(outcomes, (steps - 1) as nat)
                },
                StepView::Finish(_) => self,
            }
        }
    }
}

/// The most file operations that one commit asks for.
pub open spec fn commit_steps() -> nat {
    4
}

/// A commit of `writer` on `disk` that is cut short after `steps` file
/// operations, as by a crash: how writer and disk are left, and the step
/// that was due.
pub open spec fn commit_until(writer: WriterView, disk: Disk, outcomes: Outcomes, steps: nat) -> Run {
    let (writer, step) = writer.commit();
    Run { writer, disk, step }.drive(outcomes, steps)
}

/// A whole commit of `writer` on `disk`: how writer and disk are left, and
/// the step that the commit ends with.
pub open spec fn commit_run(writer: WriterView, disk: Disk, outcomes: Outcomes) -> Run {
    commit_until(writer, disk, outcomes, commit_steps())
}

/// A whole one-shot write of `data` to `dest` over the visible files `files`:
/// a new writer with an empty temporary file, one write, one commit.
pub open spec fn write_run(
    files: Map<Seq<char>, Seq<u8>>,
    dest: Seq<char>,
    overwrite: bool,
    data: Seq<u8>,
    outcomes: Outcomes,
) -> Run {
    let writer = WriterView::open(dest, overwrite);
    let disk = Disk::fresh(files);
    match writer.write(data) {
        Ok(bytes) => commit_run(writer, disk.append(bytes), outcomes),
        Err(error) => Run::refused(writer, disk, error),
    }
}

} // verus!
