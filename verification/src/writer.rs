//! The staged writer and its commit protocol.
//!
//! A writer stands for one temporary file that lies beside its destination.
//! It performs no file operation itself. [`AtomicWriter::commit`] and
//! [`AtomicWriter::resume`] say what comes next, as a [`Step`]: either an
//! [`Action`], which the caller performs and reports on with an [`Event`], or
//! the end of the commit with its result.
//!
//! A commit runs through these steps:
//!
//! 1. unless the writer may overwrite, ask whether the destination exists, and
//!    fail with [`WriterError::AlreadyExists`] if it does (the writer stays
//!    open, and the commit may be tried again);
//! 2. rename the temporary file to the destination;
//! 3. sync the renamed file;
//! 4. if the sync failed, remove the destination again.
//!
//! From step 2 on the temporary file is consumed: the writer accepts no
//! further write and no second commit.

use vstd::prelude::*;
use vstd::string::StringSliceAdditionalSpecFns;
use crate::error::{ErrorView, WriterError};

verus! {

/// How far a writer has come.
#[derive(Debug)]
enum Stage {
    Open,
    Checking,
    Persisting,
    Syncing,
    RollingBack { sync: String },
    Committed,
    Failed,
}

/// The mathematical value of a writer's stage.
pub enum StageView {
    /// The temporary file accepts writes, and a commit may begin.
    Open,
    /// A commit has asked whether the destination exists.
    Checking,
    /// The temporary file is being renamed to the destination.
    Persisting,
    /// The renamed file is being synced.
    Syncing,
    /// The sync failed with the message `sync`; the destination is being
    /// removed again.
    RollingBack { sync: Seq<char> },
    /// The commit succeeded.
    Committed,
    /// The commit failed after it had consumed the temporary file.
    Failed,
}

impl StageView {
    /// Whether the temporary file has been handed over to a commit for good:
    /// it is being renamed, or it is gone.
    pub open spec fn consumed(self) -> bool {
        !(self is Open || self is Checking)
    }
}

impl View for Stage {
    type V = StageView;

    closed spec fn view(&self) -> StageView {
        match *self {
            Stage::Open => StageView::Open,
            Stage::Checking => StageView::Checking,
            Stage::Persisting => StageView::Persisting,
            Stage::Syncing => StageView::Syncing,
            Stage::RollingBack { sync } => StageView::RollingBack { sync: sync@ },
            Stage::Committed => StageView::Committed,
            Stage::Failed => StageView::Failed,
        }
    }
}

/// How a file operation went: `Ok`, or the system's message.
pub open spec fn outcome_view(outcome: Result<(), String>) -> Result<(), Seq<char>> {
    match outcome {
        Ok(_) => Ok(()),
        Err(message) => Err(message@),
    }
}

/// What the caller reports after it has performed an [`Action`].
#[derive(Debug, PartialEq, Eq)]
pub enum Event {
    /// Answers [`Action::CheckDestination`]: whether the destination exists.
    DestinationChecked(bool),
    /// Answers [`Action::Persist`].
    Persisted(Result<(), String>),
    /// Answers [`Action::Sync`].
    Synced(Result<(), String>),
    /// Answers [`Action::RemoveDestination`].
    Removed(Result<(), String>),
}

/// The mathematical value of an [`Event`].
pub enum EventView {
    DestinationChecked(bool),
    Persisted(Result<(), Seq<char>>),
    Synced(Result<(), Seq<char>>),
    Removed(Result<(), Seq<char>>),
}

impl View for Event {
    type V = EventView;

    open spec fn view(&self) -> EventView {
        match *self {
            Event::DestinationChecked(exists) => EventView::DestinationChecked(exists),
            Event::Persisted(outcome) => EventView::Persisted(outcome_view(outcome)),
            Event::Synced(outcome) => EventView::Synced(outcome_view(outcome)),
            Event::Removed(outcome) => EventView::Removed(outcome_view(outcome)),
        }
    }
}

/// A file operation that a commit asks for.
#[derive(Debug, Clone, Copy, PartialEq, Eq, Structural)]
pub enum Action {
    /// Find out whether the destination exists.
    CheckDestination,
    /// Rename the temporary file to the destination.
    Persist,
    /// Sync the renamed file's contents and metadata to storage.
    Sync,
    /// Remove the destination.
    RemoveDestination,
}

/// What comes next in a commit.
#[derive(Debug, PartialEq, Eq)]
pub enum Step {
    /// The caller performs the action and reports on it.
    Perform(Action),
    /// The commit is over. Holds the destination path, or why the commit
    /// failed.
    Finish(Result<String, WriterError>),
}

/// The mathematical value of a [`Step`].
pub enum StepView {
    Perform(Action),
    Finish(Result<Seq<char>, ErrorView>),
}

impl View for Step {
    type V = StepView;

    open spec fn view(&self) -> StepView {
        match *self {
            Step::Perform(action) => StepView::Perform(action),
            Step::Finish(Ok(path)) => StepView::Finish(Ok(path@)),
            Step::Finish(Err(error)) => StepView::Finish(Err(error@)),
        }
    }
}

/// The mathematical value of an [`AtomicWriter`].
pub struct WriterView {
    pub dest: Seq<char>,
    pub overwrite: bool,
    pub stage: StageView,
}

impl WriterView {
    /// A writer as it is constructed: open.
    pub open spec fn open(dest: Seq<char>, overwrite: bool) -> WriterView {
        WriterView { dest, overwrite, stage: StageView::Open }
    }

    /// This writer at another stage.
    pub open spec fn at(self, stage: StageView) -> WriterView {
        WriterView { stage, ..self }
    }

    /// This writer as it is, and the end of a commit with `error`.
    pub open spec fn refuse(self, error: ErrorView) -> (WriterView, StepView) {
        (self, StepView::Finish(Err(error)))
    }

    /// This writer at another stage, and the action that it asks for there.
    pub open spec fn ask(self, stage: StageView, action: Action) -> (WriterView, StepView) {
        (self.at(stage), StepView::Perform(action))
    }

    /// The start of a commit: the writer afterwards, and the first step.
    ///
    /// Only an open writer can be committed. One that may overwrite goes
    /// straight to the rename; one that may not asks first whether the
    /// destination exists.
    pub open spec fn commit(self) -> (WriterView, StepView) {
        match self.stage {
            StageView::Open => if self.overwrite {
                self.ask(StageView::Persisting, Action::Persist)
            } else {
                self.ask(StageView::Checking, Action::CheckDestination)
            },
            _ => self.refuse(ErrorView::InvalidState),
        }
    }

    /// The next step of a commit: the writer after `event`, and what comes
    /// then. An event that the writer is not waiting for is refused as an
    /// invalid state and changes nothing.
    pub open spec fn resume(self, event: EventView) -> (WriterView, StepView) {
        match (self.stage, event) {
            (StageView::Checking, EventView::DestinationChecked(exists)) => if exists {
                self.at(StageView::Open).refuse(ErrorView::AlreadyExists(self.dest))
            } else {
                self.ask(StageView::Persisting, Action::Persist)
            },
            (StageView::Persisting, EventView::Persisted(Ok(_))) => self.ask(
                StageView::Syncing,
                Action::Sync,
            ),
            (StageView::Persisting, EventView::Persisted(Err(message))) => self.at(
                StageView::Failed,
            ).refuse(ErrorView::Io(message)),
            (StageView::Syncing, EventView::Synced(Ok(_))) => (
                self.at(StageView::Committed),
                StepView::Finish(Ok(self.dest)),
            ),
            (StageView::Syncing, EventView::Synced(Err(sync))) => self.ask(
                StageView::RollingBack { sync },
                Action::RemoveDestination,
            ),
            (StageView::RollingBack { sync }, EventView::Removed(Ok(_))) => self.at(
                StageView::Failed,
            ).refuse(ErrorView::Io(sync)),
            (StageView::RollingBack { sync }, EventView::Removed(Err(removal))) => self.at(
                StageView::Failed,
            ).refuse(ErrorView::RollbackFailed { sync, removal }),
            _ => self.refuse(ErrorView::InvalidState),
        }
    }

    /// What a request to write `data` is answered with: the bytes to append
    /// to the temporary file, or invalid-state where the writer is not open.
    pub open spec fn write(self, data: Seq<u8>) -> Result<Seq<u8>, ErrorView> {
        if self.stage is Open {
            Ok(data)
        } else {
            Err(ErrorView::InvalidState)
        }
    }
}

/// The bytes of an answer to a write request.
pub open spec fn bytes_view(answer: Result<&[u8], WriterError>) -> Result<Seq<u8>, ErrorView> {
    match answer {
        Ok(bytes) => Ok(bytes@),
        Err(error) => Err(error@),
    }
}

/// A writer that stages bytes in a temporary file and commits them to its
/// destination in one step.
#[derive(Debug)]
pub struct AtomicWriter {
    dest: String,
    overwrite: bool,
    stage: Stage,
}

impl View for AtomicWriter {
    type V = WriterView;

    closed spec fn view(&self) -> WriterView {
        WriterView { dest: self.dest@, overwrite: self.overwrite, stage: self.stage@ }
    }
}

impl AtomicWriter {
    /// A writer for the destination `dest`, open for writes. The destination
    /// and the flag are kept as they are given; whether the destination
    /// exists is asked only when the writer is committed.
    pub fn new(dest: String, overwrite: bool) -> (writer: AtomicWriter)
        ensures
            writer@ == WriterView::open(dest@, overwrite),
    {
        AtomicWriter { dest, overwrite, stage: Stage::Open }
    }

    /// The destination path.
    pub fn dest(&self) -> (dest: &str)
        ensures
            dest@ == self@.dest,
    {
        self.dest.as_str()
    }

    /// Whether a commit may replace an existing destination.
    pub fn overwrite(&self) -> (overwrite: bool)
        ensures
            overwrite == self@.overwrite,
    {
        self.overwrite
    }

    /// Whether the writer accepts writes and a commit.
    pub fn is_open(&self) -> (open: bool)
        ensures
            open == (self@.stage is Open),
    {
        match self.stage {
            Stage::Open => true,
            _ => false,
        }
    }

    /// Asks to append `data` to the temporary file. An open writer answers
    /// with the bytes to append, which are `data`; any other writer refuses
    /// with [`WriterError::InvalidState`].
    pub fn write_bytes<'a>(&self, data: &'a [u8]) -> (answer: Result<&'a [u8], WriterError>)
        ensures
            bytes_view(answer) == self@.write(data@),
    {
        if self.is_open() {
            Ok(data)
        } else {
            Err(WriterError::InvalidState)
        }
    }

    /// Asks to append `data` to the temporary file, as its UTF-8 encoding.
    pub fn write_text<'a>(&self, data: &'a str) -> (answer: Result<&'a [u8], WriterError>)
        ensures
            bytes_view(answer) == self@.write(data.spec_bytes()),
    {
        self.write_bytes(data.as_bytes())
    }

    /// Begins a commit and says what comes first. The destination and the
    /// flag never change.
    pub fn commit(&mut self) -> (step: Step)
        ensures
            (final(self)@, step@) == old(self)@.commit(),
    {
        if self.is_open() {
            if self.overwrite {
                self.stage = Stage::Persisting;
                Step::Perform(Action::Persist)
            } else {
                self.stage = Stage::Checking;
                Step::Perform(Action::CheckDestination)
            }
        } else {
            Step::Finish(Err(WriterError::InvalidState))
        }
    }

    /// Takes the report on the action that was asked for last and says what
    /// comes next.
    pub fn resume(&mut self, event: Event) -> (step: Step)
        ensures
            (final(self)@, step@) == old(self)@.resume(event@),
    {
        let mut stage = Stage::Failed;
        core::mem::swap(&mut self.stage, &mut stage);
        match (stage, event) {
            (Stage::Checking, Event::DestinationChecked(exists)) => {
                if exists {
                    self.stage = Stage::Open;
                    Step::Finish(Err(WriterError::AlreadyExists(self.dest.clone())))
                } else {
                    self.stage = Stage::Persisting;
                    Step::Perform(Action::Persist)
                }
            },
            (Stage::Persisting, Event::Persisted(Ok(_))) => {
                self.stage = Stage::Syncing;
                Step::Perform(Action::Sync)
            },
            (Stage::Persisting, Event::Persisted(Err(message))) => {
                Step::Finish(Err(WriterError::Io(message)))
            },
            (Stage::Syncing, Event::Synced(Ok(_))) => {
                self.stage = Stage::Committed;
                Step::Finish(Ok(self.dest.clone()))
            },
            (Stage::Syncing, Event::Synced(Err(sync))) => {
                self.stage = Stage::RollingBack { sync };
                Step::Perform(Action::RemoveDestination)
            },
            (Stage::RollingBack { sync }, Event::Removed(Ok(_))) => {
                Step::Finish(Err(WriterError::Io(sync)))
            },
            (Stage::RollingBack { sync }, Event::Removed(Err(removal))) => {
                Step::Finish(Err(WriterError::RollbackFailed { sync, removal }))
            },
            (stage, _) => {
                self.stage = stage;
                Step::Finish(Err(WriterError::InvalidState))
            },
        }
    }
}

} // verus!
