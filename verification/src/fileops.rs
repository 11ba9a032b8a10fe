//! File operations: which file-system actions an operation consists of, in
//! what order, and how it is answered.
//!
//! An operation is carried out step by step. [`start_file_operation`] gives the
//! first step. While a step asks for an action, the caller performs it and hands
//! the action and its outcome to [`continue_file_operation`], which gives the
//! next step. A step that is [`Step::Done`] carries the answer.

use crate::text::prefixed;
use std::path::PathBuf;
use vstd::prelude::*;
use vstd::string::StringExecFns;

verus! {

/// The kind of a file operation.
#[derive(Debug, Clone, Copy, PartialEq, Eq)]
pub enum FileOperationType {
    Copy,
    Move,
    Delete,
    Chmod,
}

/// A request for one file operation. `destination` is ignored by
/// [`FileOperationType::Delete`] and [`FileOperationType::Chmod`].
#[derive(Debug, PartialEq, Eq)]
pub struct FileOperation {
    pub operation_type: FileOperationType,
    pub source: PathBuf,
    pub destination: PathBuf,
}

/// The family of the system that the actions are performed on. Permission
/// modes exist on POSIX systems only.
#[derive(Debug, Clone, Copy, PartialEq, Eq)]
pub enum Platform {
    Posix,
    Other,
}

/// The permission mode that [`FileOperationType::Chmod`] sets: read, write and
/// execute for the owner, read and execute for group and others. A request
/// cannot choose another.
pub const CHMOD_MODE: u32 = 0o755;

/// One action on the file system, for the caller to perform.
#[derive(Debug, PartialEq, Eq)]
pub enum FsAction {
    /// Copy the content of the file `from` to `to`, creating or overwriting it.
    CopyFile { from: PathBuf, to: PathBuf },
    /// Rename `from` to `to`.
    Rename { from: PathBuf, to: PathBuf },
    /// Remove the file `path`.
    RemoveFile { path: PathBuf },
    /// Read the metadata of `path`, which fails where nothing is there.
    ReadMetadata { path: PathBuf },
    /// Set the permission bits of `path` to exactly `mode`.
    SetMode { path: PathBuf, mode: u32 },
}

/// What the caller does next.
#[derive(Debug, PartialEq, Eq)]
pub enum Step {
    /// Perform the action, then continue with its outcome.
    Perform(FsAction),
    /// The operation is over; this is its answer.
    Done(Result<(), String>),
}

/// A [`Step`] as a mathematical value.
pub enum StepView {
    Perform(FsAction),
    Done(Result<(), Seq<char>>),
}

impl View for Step {
    type V = StepView;

    open spec fn view(&self) -> StepView {
        match *self {
            Step::Perform(action) => StepView::Perform(action),
            Step::Done(Ok(())) => StepView::Done(Ok(())),
            Step::Done(Err(message)) => StepView::Done(Err(message@)),
        }
    }
}

/// The outcome of an action as a mathematical value: success, or the
/// operating system's description of the failure.
pub open spec fn outcome_text(outcome: Result<(), String>) -> Result<(), Seq<char>> {
    match outcome {
        Ok(()) => Ok(()),
        Err(error) => Err(error@),
    }
}

/// The name that an operation goes by in messages.
pub open spec fn operation_name(kind: FileOperationType) -> Seq<char> {
    match kind {
        FileOperationType::Copy => "Copy"@,
        FileOperationType::Move => "Move"@,
        FileOperationType::Delete => "Delete"@,
        FileOperationType::Chmod => "Chmod"@,
    }
}

/// The operation that an action is part of.
pub open spec fn operation_of(action: FsAction) -> FileOperationType {
    match action {
        FsAction::CopyFile { .. } => FileOperationType::Copy,
        FsAction::Rename { .. } => FileOperationType::Move,
        FsAction::RemoveFile { .. } => FileOperationType::Delete,
        FsAction::ReadMetadata { .. } => FileOperationType::Chmod,
        FsAction::SetMode { .. } => FileOperationType::Chmod,
    }
}

/// What a failure message says of the action that failed, where the
/// operation's name does not say it all.
pub open spec fn stage_note(action: FsAction) -> Seq<char> {
    match action {
        FsAction::ReadMetadata { .. } => "Failed to get metadata: "@,
        _ => Seq::empty(),
    }
}

/// The start of every failure message of an operation: its name, then
/// `" failed: "`.
pub open spec fn failure_prefix(kind: FileOperationType) -> Seq<char> {
    operation_name(kind) + " failed: "@
}

/// The message for an action that failed with `error`: the operation's
/// [`failure_prefix`], the action's [`stage_note`], then the operating system's
/// words.
pub open spec fn failure_text(action: FsAction, error: Seq<char>) -> Seq<char> {
    failure_prefix(operation_of(action)) + stage_note(action) + error
}

/// The first step of an operation.
///
/// Copy, Move and Delete each consist of one action. Chmod on a POSIX system
/// first reads the metadata of `source`; elsewhere it is over at once, with
/// success and without any action.
pub open spec fn first_step(operation: FileOperation, platform: Platform) -> StepView {
    match operation.operation_type {
        FileOperationType::Copy => StepView::Perform(
            FsAction::CopyFile { from: operation.source, to: operation.destination },
        ),
        FileOperationType::Move => StepView::Perform(
            FsAction::Rename { from: operation.source, to: operation.destination },
        ),
        FileOperationType::Delete => StepView::Perform(
            FsAction::RemoveFile { path: operation.source },
        ),
        FileOperationType::Chmod => match platform {
            Platform::Posix => StepView::Perform(FsAction::ReadMetadata { path: operation.source }),
            Platform::Other => StepView::Done(Ok(())),
        },
    }
}

/// The step that follows `performed`, given how it ended.
///
/// A failure ends the operation with its message; nothing is undone and
/// nothing else is tried. After a successful read of the metadata the mode is
/// set to [`CHMOD_MODE`]. Every other success ends the operation.
pub open spec fn step_after(performed: FsAction, outcome: Result<(), Seq<char>>) -> StepView {
    match outcome {
        Err(error) => StepView::Done(Err(failure_text(performed, error))),
        Ok(()) => match performed {
            FsAction::ReadMetadata { path } => StepView::Perform(
                FsAction::SetMode { path, mode: CHMOD_MODE },
            ),
            _ => StepView::Done(Ok(())),
        },
    }
}

impl FileOperationType {
    /// The name that this operation goes by in messages.
    pub fn name(self) -> (name: &'static str)
        ensures
            name@ == operation_name(self),
    {
        match self {
            FileOperationType::Copy => "Copy",
            FileOperationType::Move => "Move",
            FileOperationType::Delete => "Delete",
            FileOperationType::Chmod => "Chmod",
        }
    }
}

impl FsAction {
    /// The operation that this action is part of.
    pub fn operation(&self) -> (kind: FileOperationType)
        ensures
            kind == operation_of(*self),
    {
        match self {
            FsAction::CopyFile { .. } => FileOperationType::Copy,
            FsAction::Rename { .. } => FileOperationType::Move,
            FsAction::RemoveFile { .. } => FileOperationType::Delete,
            FsAction::ReadMetadata { .. } => FileOperationType::Chmod,
            FsAction::SetMode { .. } => FileOperationType::Chmod,
        }
    }

    /// The message that reports this action as failed with `error`.
    pub fn failure_message(&self, error: &str) -> (message: String)
        ensures
            message@ == failure_text(*self, error@),
    {
        let mut message = prefixed(self.operation().name(), " failed: ");
        match self {
            FsAction::ReadMetadata { .. } => {
                message.append("Failed to get metadata: ");
            },
            _ => {
                assert(message@ + stage_note(*self) =~= message@);
            },
        }
        message.append(error);
        message
    }
}

/// Begins a file operation: gives its first step.
pub fn start_file_operation(operation: FileOperation, platform: Platform) -> (step: Step)
    ensures
        step@ == first_step(operation, platform),
{
    match operation.operation_type {
        FileOperationType::Copy => Step::Perform(
            FsAction::CopyFile { from: operation.source, to: operation.destination },
        ),
        FileOperationType::Move => Step::Perform(
            FsAction::Rename { from: operation.source, to: operation.destination },
        ),
        FileOperationType::Delete => Step::Perform(FsAction::RemoveFile { path: operation.source }),
        FileOperationType::Chmod => match platform {
            Platform::Posix => Step::Perform(FsAction::ReadMetadata { path: operation.source }),
            Platform::Other => Step::Done(Ok(())),
        },
    }
}

/// Continues a file operation after `performed` has ended with `outcome`, an
/// `Err` holding the operating system's description of the failure.
pub fn continue_file_operation(performed: FsAction, outcome: Result<(), String>) -> (step: Step)
    ensures
        step@ == step_after(performed, outcome_text(outcome)),
{
    match outcome {
        Err(error) => Step::Done(Err(performed.failure_message(error.as_str()))),
        Ok(()) => match performed {
            FsAction::ReadMetadata { path } => Step::Perform(
                FsAction::SetMode { path, mode: CHMOD_MODE },
            ),
            _ => Step::Done(Ok(())),
        },
    }
}

} // verus!
