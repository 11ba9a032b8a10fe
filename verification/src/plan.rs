//! A file operation seen as a whole: the actions it consists of, and the laws
//! that tie them to the steps of [`crate::fileops`].

use crate::fileops::{
    failure_prefix, failure_text, first_step, operation_of, step_after, FileOperation,
    FileOperationType, FsAction, Platform, StepView, CHMOD_MODE,
};
use vstd::prelude::*;

verus! {

/// The actions that an operation consists of, in the order in which they are
/// performed when none of them fails.
pub open spec fn actions_of(operation: FileOperation, platform: Platform) -> Seq<FsAction> {
    match operation.operation_type {
        FileOperationType::Copy => seq![
            FsAction::CopyFile { from: operation.source, to: operation.destination },
        ],
        FileOperationType::Move => seq![
            FsAction::Rename { from: operation.source, to: operation.destination },
        ],
        FileOperationType::Delete => seq![FsAction::RemoveFile { path: operation.source }],
        FileOperationType::Chmod => match platform {
            Platform::Posix => seq![
                FsAction::ReadMetadata { path: operation.source },
                FsAction::SetMode { path: operation.source, mode: CHMOD_MODE },
            ],
            Platform::Other => Seq::empty(),
        },
    }
}

/// Whether steps that begin with `first` carry out `actions`: they ask for
/// the actions one by one in their order, end with the failure message of the
/// first action that fails, and end with success once the last has succeeded.
pub open spec fn carries_out(first: StepView, actions: Seq<FsAction>) -> bool {
    &&& first == if actions.len() == 0 {
        StepView::Done(Ok(()))
    } else {
        StepView::Perform(actions[0])
    }
    &&& forall|i: int, error: Seq<char>|
        0 <= i < actions.len() ==> #[trigger] step_after(actions[i], Err(error)) == StepView::Done(
            Err(failure_text(actions[i], error)),
        )
    &&& forall|i: int|
        0 <= i < actions.len() - 1 ==> #[trigger] step_after(actions[i], Ok(()))
            == StepView::Perform(actions[i + 1])
    &&& actions.len() > 0 ==> step_after(actions.last(), Ok(())) == StepView::Done(Ok(()))
}

/// The steps of an operation carry out its actions: each is asked for in
/// turn, the first failure ends the operation with its message and without
/// anything being undone or tried further, and the operation succeeds when
/// its last action has.
pub proof fn lemma_steps_carry_out_actions(operation: FileOperation, platform: Platform)
    ensures
        carries_out(first_step(operation, platform), actions_of(operation, platform)),
{
}

/// An operation never takes more than two actions. Copy, Move and Delete
/// take exactly one.
pub proof fn lemma_action_count(operation: FileOperation, platform: Platform)
    ensures
        actions_of(operation, platform).len() <= 2,
        operation.operation_type != FileOperationType::Chmod ==> actions_of(
            operation,
            platform,
        ).len() == 1,
{
}

/// Every failure message of an operation begins with the operation's name
/// followed by `" failed: "`, and ends with the operating system's words,
/// whole and unchanged.
pub proof fn lemma_failure_message_shape(
    operation: FileOperation,
    platform: Platform,
    i: int,
    error: Seq<char>,
)
    requires
        0 <= i < actions_of(operation, platform).len(),
    ensures
        failure_prefix(operation.operation_type).is_prefix_of(
            failure_text(actions_of(operation, platform)[i], error),
        ),
        error.is_suffix_of(failure_text(actions_of(operation, platform)[i], error)),
{
    let action = actions_of(operation, platform)[i];
    assert(operation_of(action) == operation.operation_type);
    let prefix = failure_prefix(operation.operation_type);
    let message = failure_text(action, error);
    assert(message.subrange(0, prefix.len() as int) =~= prefix);
    assert(message.subrange(message.len() - error.len(), message.len() as int) =~= error);
}

/// A failure is answered by what failed and in which words, not by where:
/// two actions of the same kind that fail with the same words end their
/// operations with the same message, so that a request that fails again for the
/// same reason is answered as before.
pub proof fn lemma_same_failure_same_answer(action: FsAction, other: FsAction, error: Seq<char>)
    requires
        operation_of(action) == operation_of(other),
        action is ReadMetadata <==> other is ReadMetadata,
    ensures
        step_after(action, Err(error)) == step_after(other, Err(error)),
{
}

/// Delete and Chmod ignore the destination of a request: whatever it is, the
/// actions are the same.
pub proof fn lemma_destination_ignored(
    operation: FileOperation,
    other: FileOperation,
    platform: Platform,
)
    requires
        operation.operation_type == FileOperationType::Delete || operation.operation_type
            == FileOperationType::Chmod,
        other.operation_type == operation.operation_type,
        other.source == operation.source,
    ensures
        actions_of(other, platform) == actions_of(operation, platform),
        first_step(other, platform) == first_step(operation, platform),
{
}

/// Chmod on a POSIX system sets the mode of `source` to exactly
/// [`CHMOD_MODE`], whatever the request and whatever the mode was before:
/// the one mode that is ever asked for is that one. Before that it reads the
/// metadata of `source`, so that a missing file is reported.
pub proof fn lemma_chmod_on_posix(operation: FileOperation)
    requires
        operation.operation_type == FileOperationType::Chmod,
    ensures
        actions_of(operation, Platform::Posix) == seq![
            FsAction::ReadMetadata { path: operation.source },
            FsAction::SetMode { path: operation.source, mode: 0o755u32 },
        ],
{
}

/// Chmod on a system without permission modes succeeds at once and asks for
/// no action: nothing is altered.
pub proof fn lemma_chmod_elsewhere(operation: FileOperation)
    requires
        operation.operation_type == FileOperationType::Chmod,
    ensures
        actions_of(operation, Platform::Other).len() == 0,
        first_step(operation, Platform::Other) == StepView::Done(Ok(())),
{
}

/// No operation other than Chmod ever asks to set a mode, and Chmod asks for
/// no other mode than [`CHMOD_MODE`].
pub proof fn lemma_only_fixed_mode_is_set(operation: FileOperation, platform: Platform, i: int)
    requires
        0 <= i < actions_of(operation, platform).len(),
        actions_of(operation, platform)[i] is SetMode,
    ensures
        operation.operation_type == FileOperationType::Chmod,
        actions_of(operation, platform)[i]->mode == CHMOD_MODE,
{
}

} // verus!
