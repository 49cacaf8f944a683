//! Snapshotting the working copy before a command runs.
//!
//! The files of the working copy are scanned into a tree, and where that
//! tree differs from the tree of the checked-out commit, the commit is
//! rewritten with it in a transaction of its own. Before the scan the record
//! of the working copy is held against the repository: a working copy that
//! is ahead has the repository reloaded at its operation, one that is behind
//! or on another branch of the operation log is refused unscanned.
//!
//! Locking, reloading, scanning and committing are the work of the working
//! copy and the repository. [`SnapshotCoordinator`] decides what is done
//! next: the caller performs each [`SnapshotAction`] and hands back what came
//! of it as a [`SnapshotEvent`], and stops at the first failure of that work.

use crate::command_error::{
    internal_error, internal_error_with_message, user_error_with_hint, CommandError,
    CommandErrorView, ErrorChain, ErrorChainView,
};
use crate::commit::{optional_commit_view, Commit, CommitView};
use crate::object_id::{short_operation_hash, spec_hex, OperationId, TreeId, SHORT_HASH_LEN};
use crate::op_log::{Operation, OperationLog, OperationView};
use crate::staleness::{
    check_stale_working_copy, spec_check_stale, FreshnessView, StalenessError, StalenessErrorView,
    WorkingCopyFreshness, WorkingCopyRecord, WorkingCopyRecordView,
};
use crate::text::glue;
use vstd::prelude::*;
use vstd::string::*;

verus! {

/// The description under which a snapshot is committed.
pub open spec fn snapshot_description() -> Seq<char> {
    "snapshot working copy"@
}

/// Why the working copy was not snapshotted.
#[derive(Debug, PartialEq, Eq)]
pub enum SnapshotError {
    /// The working copy was not updated since this operation, and the
    /// repository has moved on.
    StaleWorkingCopy { wc_operation_id: OperationId },
    /// The repository was loaded at an operation that is neither before nor
    /// after the one of the working copy.
    SiblingOperation { repo_operation_id: OperationId, wc_operation_id: OperationId },
    /// The operation log could not tell how the two operations are related.
    Staleness(StalenessError),
    /// An event came that the coordinator did not wait for.
    UnexpectedEvent,
}

pub enum SnapshotErrorView {
    StaleWorkingCopy { wc_operation_id: Seq<u8> },
    SiblingOperation { repo_operation_id: Seq<u8>, wc_operation_id: Seq<u8> },
    Staleness(StalenessErrorView),
    UnexpectedEvent,
}

impl View for SnapshotError {
    type V = SnapshotErrorView;

    open spec fn view(&self) -> SnapshotErrorView {
        match self {
            SnapshotError::StaleWorkingCopy { wc_operation_id } => {
                SnapshotErrorView::StaleWorkingCopy { wc_operation_id: wc_operation_id@ }
            },
            SnapshotError::SiblingOperation { repo_operation_id, wc_operation_id } => {
                SnapshotErrorView::SiblingOperation {
                    repo_operation_id: repo_operation_id@,
                    wc_operation_id: wc_operation_id@,
                }
            },
            SnapshotError::Staleness(error) => SnapshotErrorView::Staleness(error@),
            SnapshotError::UnexpectedEvent => SnapshotErrorView::UnexpectedEvent,
        }
    }
}

/// The hint given with a stale working copy.
pub open spec fn stale_hint() -> Seq<char> {
    "Run `jj workspace update-stale` to update it.
See https://github.com/martinvonz/jj/blob/main/docs/working-copy.md#stale-working-copy for more information."@
}

/// The short form of an id of six bytes or more.
pub open spec fn spec_short_hash(id: Seq<u8>) -> Seq<char> {
    spec_hex(id).subrange(0, SHORT_HASH_LEN as int)
}

/// The error that the user is shown for a snapshot error.
pub open spec fn spec_snapshot_command_error(error: SnapshotErrorView) -> CommandErrorView {
    match error {
        SnapshotErrorView::StaleWorkingCopy { wc_operation_id } => CommandErrorView::UserError {
            err: ErrorChainView {
                message: "The working copy is stale (not updated since operation "@
                    + spec_short_hash(wc_operation_id) + ")."@,
                sources: Seq::empty(),
            },
            hint: Some(stale_hint()),
        },
        SnapshotErrorView::SiblingOperation {
            repo_operation_id,
            wc_operation_id,
        } => CommandErrorView::InternalError(
            ErrorChainView {
                message: "The repo was loaded at operation "@ + spec_short_hash(repo_operation_id)
                    + ", which seems to be a sibling of the working copy's operation "@
                    + spec_short_hash(wc_operation_id),
                sources: Seq::empty(),
            },
        ),
        SnapshotErrorView::Staleness(
            StalenessErrorView::OperationNotFound(id),
        ) => CommandErrorView::InternalError(
            ErrorChainView {
                message: "Failed to load an operation"@,
                sources: seq!["Object "@ + spec_hex(id) + " of type operation not found"@],
            },
        ),
        SnapshotErrorView::Staleness(
            StalenessErrorView::UnrelatedOperations,
        ) => CommandErrorView::InternalError(
            ErrorChainView { message: "unrelated operations"@, sources: Seq::empty() },
        ),
        SnapshotErrorView::UnexpectedEvent => CommandErrorView::InternalError(
            ErrorChainView { message: "unexpected event"@, sources: Seq::empty() },
        ),
    }
}

impl SnapshotErrorView {
    /// Whether every operation id that the error's message abbreviates has
    /// the six bytes of a short hash.
    pub open spec fn abbreviates(self) -> bool {
        match self {
            SnapshotErrorView::StaleWorkingCopy { wc_operation_id } => wc_operation_id.len() >= 6,
            SnapshotErrorView::SiblingOperation { repo_operation_id, wc_operation_id } => {
                repo_operation_id.len() >= 6 && wc_operation_id.len() >= 6
            },
            _ => true,
        }
    }
}

impl SnapshotError {
    /// The error to show to the user. A stale working copy is the user's to
    /// mend and comes with a hint; the others are internal errors.
    pub fn into_command_error(self) -> (error: CommandError)
        requires
            self@.abbreviates(),
        ensures
            error@ == spec_snapshot_command_error(self@),
    {
        match self {
            SnapshotError::StaleWorkingCopy { wc_operation_id } => {
                let short = short_operation_hash(&wc_operation_id);
                let mut message = glue(
                    "The working copy is stale (not updated since operation ",
                    short.as_str(),
                );
                message.append(").");
                let err = ErrorChain { message, sources: Vec::new() };
                assert(err@.sources =~= Seq::<Seq<char>>::empty());
                user_error_with_hint(
                    err,
                    "Run `jj workspace update-stale` to update it.
See https://github.com/martinvonz/jj/blob/main/docs/working-copy.md#stale-working-copy for more information.",
                )
            },
            SnapshotError::SiblingOperation { repo_operation_id, wc_operation_id } => {
                let repo_short = short_operation_hash(&repo_operation_id);
                let wc_short = short_operation_hash(&wc_operation_id);
                let mut message = glue("The repo was loaded at operation ", repo_short.as_str());
                message.append(", which seems to be a sibling of the working copy's operation ");
                message.append(wc_short.as_str());
                let err = ErrorChain { message, sources: Vec::new() };
                assert(err@.sources =~= Seq::<Seq<char>>::empty());
                internal_error(err)
            },
            SnapshotError::Staleness(StalenessError::OperationNotFound(id)) => {
                let hex = id.hex();
                let mut cause = glue("Object ", hex.as_str());
                cause.append(" of type operation not found");
                let source = ErrorChain { message: cause, sources: Vec::new() };
                assert(source@.sources =~= Seq::<Seq<char>>::empty());
                let error = internal_error_with_message("Failed to load an operation", source);
                assert(source@.wrapped("Failed to load an operation"@).sources =~= seq![
                    "Object "@ + spec_hex(id@) + " of type operation not found"@,
                ]);
                error
            },
            SnapshotError::Staleness(StalenessError::UnrelatedOperations) => internal_error(
                ErrorChain::new("unrelated operations"),
            ),
            SnapshotError::UnexpectedEvent => internal_error(ErrorChain::new("unexpected event")),
        }
    }
}

/// Where the coordinator stands.
#[derive(Debug)]
pub enum SnapshotState {
    /// Nothing was asked yet.
    Idle,
    /// The lock on the working copy was asked for.
    Locking { wc_commit: Commit, repo_operation_id: OperationId },
    /// The reload of the repository at the working copy's operation was
    /// asked for.
    Reloading { operation_id: OperationId },
    /// The scan of the working copy was asked for.
    Snapshotting { wc_commit: Commit, operation_id: OperationId },
    /// The commit of the scanned tree was asked for.
    Committing,
    /// The coordinator has finished, skipped or failed.
    Finished,
}

pub enum SnapshotStateView {
    Idle,
    Locking { wc_commit: CommitView, repo_operation_id: Seq<u8> },
    Reloading { operation_id: Seq<u8> },
    Snapshotting { wc_commit: CommitView, operation_id: Seq<u8> },
    Committing,
    Finished,
}

impl View for SnapshotState {
    type V = SnapshotStateView;

    open spec fn view(&self) -> SnapshotStateView {
        match self {
            SnapshotState::Idle => SnapshotStateView::Idle,
            SnapshotState::Locking { wc_commit, repo_operation_id } => SnapshotStateView::Locking {
                wc_commit: wc_commit@,
                repo_operation_id: repo_operation_id@,
            },
            SnapshotState::Reloading { operation_id } => SnapshotStateView::Reloading {
                operation_id: operation_id@,
            },
            SnapshotState::Snapshotting { wc_commit, operation_id } => {
                SnapshotStateView::Snapshotting {
                    wc_commit: wc_commit@,
                    operation_id: operation_id@,
                }
            },
            SnapshotState::Committing => SnapshotStateView::Committing,
            SnapshotState::Finished => SnapshotStateView::Finished,
        }
    }
}

/// What the caller reports back.
#[derive(Debug)]
pub enum SnapshotEvent {
    /// The repository is loaded at this operation and shows this commit, or
    /// none, as checked out in the workspace.
    Start { wc_commit: Option<Commit>, repo_operation_id: OperationId },
    /// The working copy is locked and holds this record; `log` holds the
    /// operations from which the two operations descend.
    Locked { record: WorkingCopyRecord, log: OperationLog },
    /// The repository was reloaded and shows this commit, or none, as
    /// checked out in the workspace.
    Reloaded { wc_commit: Option<Commit> },
    /// The working copy was scanned into this tree.
    Snapshotted { new_tree_id: TreeId },
    /// The rewritten commit was committed as this operation, after this many
    /// descendants were rebased.
    Committed { operation_id: OperationId, num_rebased: usize },
}

pub enum SnapshotEventView {
    Start { wc_commit: Option<CommitView>, repo_operation_id: Seq<u8> },
    Locked { record: WorkingCopyRecordView, log: Seq<OperationView> },
    Reloaded { wc_commit: Option<CommitView> },
    Snapshotted { new_tree_id: Seq<u8> },
    Committed { operation_id: Seq<u8>, num_rebased: usize },
}

impl View for SnapshotEvent {
    type V = SnapshotEventView;

    open spec fn view(&self) -> SnapshotEventView {
        match self {
            SnapshotEvent::Start { wc_commit, repo_operation_id } => SnapshotEventView::Start {
                wc_commit: optional_commit_view(*wc_commit),
                repo_operation_id: repo_operation_id@,
            },
            SnapshotEvent::Locked { record, log } => SnapshotEventView::Locked {
                record: record@,
                log: log@,
            },
            SnapshotEvent::Reloaded { wc_commit } => SnapshotEventView::Reloaded {
                wc_commit: optional_commit_view(*wc_commit),
            },
            SnapshotEvent::Snapshotted { new_tree_id } => SnapshotEventView::Snapshotted {
                new_tree_id: new_tree_id@,
            },
            SnapshotEvent::Committed { operation_id, num_rebased } => SnapshotEventView::Committed {
                operation_id: operation_id@,
                num_rebased: *num_rebased,
            },
        }
    }
}

impl SnapshotEvent {
    /// The log that comes with a lock is well-formed.
    pub open spec fn wf(&self) -> bool {
        match self {
            SnapshotEvent::Locked { record, log } => log.wf(),
            _ => true,
        }
    }
}

/// What the caller is asked to do next.
#[derive(Debug, PartialEq, Eq)]
pub enum SnapshotAction {
    /// Lock the working copy and read its record.
    LockWorkingCopy,
    /// Reload the repository at the operation of the working copy.
    ReloadRepo { operation: Operation },
    /// Scan the working copy into a tree.
    Snapshot,
    /// Rewrite the commit with the scanned tree, make it the commit of the
    /// workspace, rebase its descendants, export the refs to Git where
    /// asked, and commit under the description.
    CommitSnapshot {
        wc_commit: Commit,
        new_tree_id: TreeId,
        export_git_refs: bool,
        description: String,
    },
    /// Record the operation in the working copy and release the lock. The
    /// user is told of `rebased` descendants, if any.
    Finish { operation_id: OperationId, rebased: Option<usize> },
    /// Release the lock, if it is held, and leave the working copy as it is:
    /// the workspace has no commit checked out.
    Skip,
    /// Release the lock, if it is held, and give up.
    Fail(SnapshotError),
}

pub enum SnapshotActionView {
    LockWorkingCopy,
    ReloadRepo { operation: OperationView },
    Snapshot,
    CommitSnapshot {
        wc_commit: CommitView,
        new_tree_id: Seq<u8>,
        export_git_refs: bool,
        description: Seq<char>,
    },
    Finish { operation_id: Seq<u8>, rebased: Option<usize> },
    Skip,
    Fail(SnapshotErrorView),
}

impl View for SnapshotAction {
    type V = SnapshotActionView;

    open spec fn view(&self) -> SnapshotActionView {
        match self {
            SnapshotAction::LockWorkingCopy => SnapshotActionView::LockWorkingCopy,
            SnapshotAction::ReloadRepo { operation } => SnapshotActionView::ReloadRepo {
                operation: operation@,
            },
            SnapshotAction::Snapshot => SnapshotActionView::Snapshot,
            SnapshotAction::CommitSnapshot {
                wc_commit,
                new_tree_id,
                export_git_refs,
                description,
            } => SnapshotActionView::CommitSnapshot {
                wc_commit: wc_commit@,
                new_tree_id: new_tree_id@,
                export_git_refs: *export_git_refs,
                description: description@,
            },
            SnapshotAction::Finish { operation_id, rebased } => SnapshotActionView::Finish {
                operation_id: operation_id@,
                rebased: *rebased,
            },
            SnapshotAction::Skip => SnapshotActionView::Skip,
            SnapshotAction::Fail(error) => SnapshotActionView::Fail(error@),
        }
    }
}

/// The count of rebased commits that the user is told of: none for zero.
pub open spec fn spec_rebase_notice(num_rebased: usize) -> Option<usize> {
    if num_rebased > 0 {
        Some(num_rebased)
    } else {
        None
    }
}

/// The count of rebased commits that the user is told of: none for zero.
pub fn rebase_notice(num_rebased: usize) -> (notice: Option<usize>)
    ensures
        notice == spec_rebase_notice(num_rebased),
{
    if num_rebased > 0 {
        Some(num_rebased)
    } else {
        None
    }
}

/// The step taken once the working copy is locked.
pub open spec fn spec_on_locked(
    wc_commit: CommitView,
    repo_operation_id: Seq<u8>,
    record: WorkingCopyRecordView,
    log: Seq<OperationView>,
) -> (SnapshotStateView, SnapshotActionView) {
    match spec_check_stale(
        record.operation_id,
        record.tree_id,
        wc_commit.tree_id,
        repo_operation_id,
        log,
    ) {
        Ok(FreshnessView::Fresh) => (
            SnapshotStateView::Snapshotting { wc_commit, operation_id: repo_operation_id },
            SnapshotActionView::Snapshot,
        ),
        Ok(FreshnessView::Updated(operation)) => (
            SnapshotStateView::Reloading { operation_id: operation.id },
            SnapshotActionView::ReloadRepo { operation },
        ),
        Ok(FreshnessView::WorkingCopyStale) => (
            SnapshotStateView::Finished,
            SnapshotActionView::Fail(
                SnapshotErrorView::StaleWorkingCopy { wc_operation_id: record.operation_id },
            ),
        ),
        Ok(FreshnessView::SiblingOperation) => (
            SnapshotStateView::Finished,
            SnapshotActionView::Fail(
                SnapshotErrorView::SiblingOperation {
                    repo_operation_id,
                    wc_operation_id: record.operation_id,
                },
            ),
        ),
        Err(error) => (
            SnapshotStateView::Finished,
            SnapshotActionView::Fail(SnapshotErrorView::Staleness(error)),
        ),
    }
}

/// The step from a state on an event: the next state and what to do.
/// `export_git_refs` says whether the working copy is shared with a Git
/// repository.
pub open spec fn spec_step(
    state: SnapshotStateView,
    event: SnapshotEventView,
    export_git_refs: bool,
) -> (SnapshotStateView, SnapshotActionView) {
    match (state, event) {
        (SnapshotStateView::Idle, SnapshotEventView::Start { wc_commit, repo_operation_id }) => {
            match wc_commit {
                None => (SnapshotStateView::Finished, SnapshotActionView::Skip),
                Some(commit) => (
                    SnapshotStateView::Locking { wc_commit: commit, repo_operation_id },
                    SnapshotActionView::LockWorkingCopy,
                ),
            }
        },
        (
            SnapshotStateView::Locking { wc_commit, repo_operation_id },
            SnapshotEventView::Locked { record, log },
        ) => spec_on_locked(wc_commit, repo_operation_id, record, log),
        (
            SnapshotStateView::Reloading { operation_id },
            SnapshotEventView::Reloaded { wc_commit },
        ) => {
            match wc_commit {
                None => (SnapshotStateView::Finished, SnapshotActionView::Skip),
                Some(commit) => (
                    SnapshotStateView::Snapshotting { wc_commit: commit, operation_id },
                    SnapshotActionView::Snapshot,
                ),
            }
        },
        (
            SnapshotStateView::Snapshotting { wc_commit, operation_id },
            SnapshotEventView::Snapshotted { new_tree_id },
        ) => {
            if new_tree_id != wc_commit.tree_id {
                (
                    SnapshotStateView::Committing,
                    SnapshotActionView::CommitSnapshot {
                        wc_commit,
                        new_tree_id,
                        export_git_refs,
                        description: snapshot_description(),
                    },
                )
            } else {
                (
                    SnapshotStateView::Finished,
                    SnapshotActionView::Finish { operation_id, rebased: None },
                )
            }
        },
        (
            SnapshotStateView::Committing,
            SnapshotEventView::Committed { operation_id, num_rebased },
        ) => (
            SnapshotStateView::Finished,
            SnapshotActionView::Finish { operation_id, rebased: spec_rebase_notice(num_rebased) },
        ),
        _ => (
            SnapshotStateView::Finished,
            SnapshotActionView::Fail(SnapshotErrorView::UnexpectedEvent),
        ),
    }
}

/// Decides, step by step, how the working copy is snapshotted.
#[derive(Debug)]
pub struct SnapshotCoordinator {
    state: SnapshotState,
    export_git_refs: bool,
}

impl SnapshotCoordinator {
    /// Where the coordinator stands.
    pub closed spec fn state(&self) -> SnapshotStateView {
        self.state@
    }

    /// Whether a committed snapshot is exported to Git.
    pub closed spec fn export_git_refs(&self) -> bool {
        self.export_git_refs
    }

    /// A coordinator that was asked nothing yet, for a working copy that is
    /// or is not shared with a Git repository.
    pub fn new(working_copy_shared_with_git: bool) -> (coordinator: Self)
        ensures
            coordinator.state() == SnapshotStateView::Idle,
            coordinator.export_git_refs() == working_copy_shared_with_git,
    {
        SnapshotCoordinator { state: SnapshotState::Idle, export_git_refs: working_copy_shared_with_git }
    }

    /// Whether the coordinator has finished, skipped or failed.
    pub fn is_finished(&self) -> (finished: bool)
        ensures
            finished == (self.state() is Finished),
    {
        match &self.state {
            SnapshotState::Finished => true,
            _ => false,
        }
    }

    fn finished(export_git_refs: bool, action: SnapshotAction) -> (next: (
        SnapshotCoordinator,
        SnapshotAction,
    ))
        ensures
            next.0.state() == SnapshotStateView::Finished,
            next.0.export_git_refs() == export_git_refs,
            next.1 == action,
    {
        (SnapshotCoordinator { state: SnapshotState::Finished, export_git_refs }, action)
    }

    /// Takes what came of the last action and says what to do next.
    ///
    /// An event that the coordinator did not wait for ends the snapshot with
    /// [`SnapshotError::UnexpectedEvent`].
    pub fn step(self, event: SnapshotEvent) -> (next: (SnapshotCoordinator, SnapshotAction))
        requires
            event.wf(),
        ensures
            next.0.export_git_refs() == self.export_git_refs(),
            (next.0.state(), next.1@) == spec_step(self.state(), event@, self.export_git_refs()),
    {
        let export_git_refs = self.export_git_refs;
        match self.state {
            SnapshotState::Idle => match event {
                SnapshotEvent::Start { wc_commit: None, repo_operation_id } => Self::finished(
                    export_git_refs,
                    SnapshotAction::Skip,
                ),
                SnapshotEvent::Start { wc_commit: Some(commit), repo_operation_id } => (
                    SnapshotCoordinator {
                        state: SnapshotState::Locking { wc_commit: commit, repo_operation_id },
                        export_git_refs,
                    },
                    SnapshotAction::LockWorkingCopy,
                ),
                _ => Self::finished(
                    export_git_refs,
                    SnapshotAction::Fail(SnapshotError::UnexpectedEvent),
                ),
            },
            SnapshotState::Locking { wc_commit, repo_operation_id } => match event {
                SnapshotEvent::Locked { record, log } => {
                    match check_stale_working_copy(
                        &record,
                        &wc_commit.tree_id,
                        &repo_operation_id,
                        &log,
                    ) {
                        Ok(WorkingCopyFreshness::Fresh) => (
                            SnapshotCoordinator {
                                state: SnapshotState::Snapshotting {
                                    wc_commit,
                                    operation_id: repo_operation_id,
                                },
                                export_git_refs,
                            },
                            SnapshotAction::Snapshot,
                        ),
                        Ok(WorkingCopyFreshness::Updated(operation)) => {
                            let operation_id = operation.id.clone();
                            (
                                SnapshotCoordinator {
                                    state: SnapshotState::Reloading { operation_id },
                                    export_git_refs,
                                },
                                SnapshotAction::ReloadRepo { operation: *operation },
                            )
                        },
                        Ok(WorkingCopyFreshness::WorkingCopyStale) => Self::finished(
                            export_git_refs,
                            SnapshotAction::Fail(
                                SnapshotError::StaleWorkingCopy {
                                    wc_operation_id: record.operation_id,
                                },
                            ),
                        ),
                        Ok(WorkingCopyFreshness::SiblingOperation) => Self::finished(
                            export_git_refs,
                            SnapshotAction::Fail(
                                SnapshotError::SiblingOperation {
                                    repo_operation_id,
                                    wc_operation_id: record.operation_id,
                                },
                            ),
                        ),
                        Err(error) => Self::finished(
                            export_git_refs,
                            SnapshotAction::Fail(SnapshotError::Staleness(error)),
                        ),
                    }
                },
                _ => Self::finished(
                    export_git_refs,
                    SnapshotAction::Fail(SnapshotError::UnexpectedEvent),
                ),
            },
            SnapshotState::Reloading { operation_id } => match event {
                SnapshotEvent::Reloaded { wc_commit: None } => Self::finished(
                    export_git_refs,
                    SnapshotAction::Skip,
                ),
                SnapshotEvent::Reloaded { wc_commit: Some(commit) } => (
                    SnapshotCoordinator {
                        state: SnapshotState::Snapshotting { wc_commit: commit, operation_id },
                        export_git_refs,
                    },
                    SnapshotAction::Snapshot,
                ),
                _ => Self::finished(
                    export_git_refs,
                    SnapshotAction::Fail(SnapshotError::UnexpectedEvent),
                ),
            },
            SnapshotState::Snapshotting { wc_commit, operation_id } => match event {
                SnapshotEvent::Snapshotted { new_tree_id } => {
                    if !new_tree_id.equals(&wc_commit.tree_id) {
                        (
                            SnapshotCoordinator { state: SnapshotState::Committing, export_git_refs },
                            SnapshotAction::CommitSnapshot {
                                wc_commit,
                                new_tree_id,
                                export_git_refs,
                                description: "snapshot working copy".to_owned(),
                            },
                        )
                    } else {
                        Self::finished(
                            export_git_refs,
                            SnapshotAction::Finish { operation_id, rebased: None },
                        )
                    }
                },
                _ => Self::finished(
                    export_git_refs,
                    SnapshotAction::Fail(SnapshotError::UnexpectedEvent),
                ),
            },
            SnapshotState::Committing => match event {
                SnapshotEvent::Committed { operation_id, num_rebased } => Self::finished(
                    export_git_refs,
                    SnapshotAction::Finish { operation_id, rebased: rebase_notice(num_rebased) },
                ),
                _ => Self::finished(
                    export_git_refs,
                    SnapshotAction::Fail(SnapshotError::UnexpectedEvent),
                ),
            },
            SnapshotState::Finished => Self::finished(
                export_git_refs,
                SnapshotAction::Fail(SnapshotError::UnexpectedEvent),
            ),
        }
    }
}

/// A working copy that is behind the repository, or on another branch of
/// the operation log, is refused as soon as it is locked: it is not
/// scanned, nothing is committed, and its record stays as it is. The error
/// of a working copy that is behind is the user's, with the hint at how to
/// update it.
pub proof fn lemma_stale_working_copy_is_refused(
    wc_commit: CommitView,
    repo_operation_id: Seq<u8>,
    record: WorkingCopyRecordView,
    log: Seq<OperationView>,
    export_git_refs: bool,
)
    requires
        spec_check_stale(
            record.operation_id,
            record.tree_id,
            wc_commit.tree_id,
            repo_operation_id,
            log,
        ) is Ok,
        spec_check_stale(
            record.operation_id,
            record.tree_id,
            wc_commit.tree_id,
            repo_operation_id,
            log,
        )->Ok_0.is_stale(),
    ensures
        ({
            let next = spec_step(
                SnapshotStateView::Locking { wc_commit, repo_operation_id },
                SnapshotEventView::Locked { record, log },
                export_git_refs,
            );
            &&& next.0 is Finished
            &&& next.1 is Fail
            &&& next.1->Fail_0 is StaleWorkingCopy || next.1->Fail_0 is SiblingOperation
            &&& next.1->Fail_0 is StaleWorkingCopy ==> spec_snapshot_command_error(next.1->Fail_0)
                is UserError && spec_snapshot_command_error(next.1->Fail_0)->hint == Some(
                stale_hint(),
            )
            &&& next.1->Fail_0 is SiblingOperation ==> spec_snapshot_command_error(next.1->Fail_0)
                is InternalError
        }),
{
}

/// Once the coordinator has finished, skipped or failed, it asks for
/// nothing more: whatever is reported to it, it fails.
pub proof fn lemma_finished_stays_finished(event: SnapshotEventView, export_git_refs: bool)
    ensures
        spec_step(SnapshotStateView::Finished, event, export_git_refs) == (
            SnapshotStateView::Finished,
            SnapshotActionView::Fail(SnapshotErrorView::UnexpectedEvent),
        ),
{
}

} // verus!
