//! Committing a transaction.
//!
//! A transaction that changed nothing is not committed at all. One that did
//! has the descendants of the rewritten commits rebased, is committed as a
//! new operation, has its effect on conflicts reported, and then, where the
//! session may touch the working copy and the workspace still has a commit,
//! has the working copy brought in line with it.
//!
//! Rebasing, committing and checking out are the work of the repository and
//! the working copy. [`TransactionCoordinator`] decides what is done next:
//! the caller performs each [`TransactionAction`] and hands back what came of
//! it as a [`TransactionEvent`], and stops at the first failure of that work.

use crate::command_error::{
    internal_error, internal_error_with_message, lines_view, CommandError, CommandErrorView,
    ErrorChain, ErrorChainView, OutputLine, OutputStream,
};
use crate::commit::{optional_commit_view, Commit, CommitView};
use crate::object_id::{short_commit_hash, spec_hex, CommitId, OperationId, TreeId};
use crate::snapshot::{rebase_notice, spec_rebase_notice, spec_short_hash};
use crate::staleness::{WorkingCopyRecord, WorkingCopyRecordView};
use crate::text::{glue, decimal, spec_decimal};
use crate::workspace::WorkspaceCommandHelper;
use vstd::prelude::*;
use vstd::string::*;

verus! {

/// Stats about a checkout operation on a working copy.
#[derive(Debug, PartialEq, Eq, Structural, Clone, Copy)]
pub struct CheckoutStats {
    /// The number of files that were updated in the working copy.
    pub updated_files: u32,
    /// The number of files added in the working copy.
    pub added_files: u32,
    /// The number of files removed in the working copy.
    pub removed_files: u32,
    /// The number of files that were supposed to be updated or added in the
    /// working copy but were skipped because there was a file in its place.
    pub skipped_files: u32,
}

/// A tree id that may be absent, as plain values.
pub open spec fn optional_tree_view(tree_id: Option<TreeId>) -> Option<Seq<u8>> {
    match tree_id {
        Some(id) => Some(id@),
        None => None,
    }
}

/// How the working copy is brought in line with a new operation.
#[derive(Debug, PartialEq, Eq)]
pub enum WorkingCopyUpdate {
    /// Check the new commit out over the old tree, then record the
    /// operation and the new tree.
    CheckOut { operation_id: OperationId, old_tree_id: Option<TreeId>, new_commit: Commit },
    /// The files stay as they are: only record the operation.
    RecordOperation { operation_id: OperationId },
}

pub enum WorkingCopyUpdateView {
    CheckOut { operation_id: Seq<u8>, old_tree_id: Option<Seq<u8>>, new_commit: CommitView },
    RecordOperation { operation_id: Seq<u8> },
}

impl View for WorkingCopyUpdate {
    type V = WorkingCopyUpdateView;

    open spec fn view(&self) -> WorkingCopyUpdateView {
        match self {
            WorkingCopyUpdate::CheckOut { operation_id, old_tree_id, new_commit } => {
                WorkingCopyUpdateView::CheckOut {
                    operation_id: operation_id@,
                    old_tree_id: optional_tree_view(*old_tree_id),
                    new_commit: new_commit@,
                }
            },
            WorkingCopyUpdate::RecordOperation { operation_id } => {
                WorkingCopyUpdateView::RecordOperation { operation_id: operation_id@ }
            },
        }
    }
}

/// What [`update_working_copy`] returns.
pub open spec fn spec_update_working_copy(
    operation_id: Seq<u8>,
    old_commit: Option<CommitView>,
    new_commit: CommitView,
) -> WorkingCopyUpdateView {
    match old_commit {
        Some(old) if old.tree_id == new_commit.tree_id => WorkingCopyUpdateView::RecordOperation {
            operation_id,
        },
        Some(old) => WorkingCopyUpdateView::CheckOut {
            operation_id,
            old_tree_id: Some(old.tree_id),
            new_commit,
        },
        None => WorkingCopyUpdateView::CheckOut { operation_id, old_tree_id: None, new_commit },
    }
}

/// How to bring the working copy from the old commit, if it had one, to the
/// new commit of the repository at the given operation: by a checkout where
/// the trees differ, else by recording the operation alone.
pub fn update_working_copy(
    operation_id: &OperationId,
    old_commit: Option<&Commit>,
    new_commit: &Commit,
) -> (update: WorkingCopyUpdate)
    ensures
        update@ == spec_update_working_copy(
            operation_id@,
            match old_commit {
                Some(old) => Some(old@),
                None => None,
            },
            new_commit@,
        ),
{
    match old_commit {
        Some(old) => {
            if old.tree_id.equals(&new_commit.tree_id) {
                // Record new operation id which represents the latest working-copy state
                WorkingCopyUpdate::RecordOperation { operation_id: operation_id.clone() }
            } else {
                WorkingCopyUpdate::CheckOut {
                    operation_id: operation_id.clone(),
                    old_tree_id: Some(old.tree_id.clone()),
                    new_commit: new_commit.clone(),
                }
            }
        },
        None => WorkingCopyUpdate::CheckOut {
            operation_id: operation_id.clone(),
            old_tree_id: None,
            new_commit: new_commit.clone(),
        },
    }
}

/// Whether the workspace is at another commit than before.
pub open spec fn spec_working_copy_moved(old_commit: Option<CommitView>, new_commit: CommitView) -> bool {
    match old_commit {
        Some(old) => old.id != new_commit.id,
        None => true,
    }
}

/// Whether the workspace is at another commit than before, in which case
/// the user is shown the new one.
pub fn working_copy_moved(old_commit: Option<&Commit>, new_commit: &Commit) -> (moved: bool)
    ensures
        moved == spec_working_copy_moved(
            match old_commit {
                Some(old) => Some(old@),
                None => None,
            },
            new_commit@,
        ),
{
    match old_commit {
        Some(old) => !old.same_commit(new_commit),
        None => true,
    }
}

/// The lines that report a checkout.
pub open spec fn spec_checkout_stats_lines(stats: CheckoutStats, new_commit_id: Seq<u8>) -> Seq<
    (OutputStream, Seq<char>),
> {
    let summary = if stats.added_files > 0 || stats.updated_files > 0 || stats.removed_files > 0 {
        seq![
            (
                OutputStream::Stderr,
                "Added "@ + spec_decimal(stats.added_files as nat) + " files, modified "@
                    + spec_decimal(stats.updated_files as nat) + " files, removed "@ + spec_decimal(
                    stats.removed_files as nat,
                ) + " files\n"@,
            ),
        ]
    } else {
        Seq::empty()
    };
    let skipped = if stats.skipped_files != 0 {
        seq![
            (
                OutputStream::Warning,
                spec_decimal(stats.skipped_files as nat)
                    + " of those updates were skipped because there were conflicting changes in the working copy.\n"@,
            ),
            (
                OutputStream::Hint,
                "Hint: Inspect the changes compared to the intended target with `jj diff --from "@
                    + spec_short_hash(new_commit_id)
                    + "`.\nDiscard the conflicting changes with `jj restore --from "@
                    + spec_short_hash(new_commit_id) + "`.\n"@,
            ),
        ]
    } else {
        Seq::empty()
    };
    summary + skipped
}

/// What to tell the user of a checkout: the counts of files added, modified
/// and removed, if any was, and a warning with a hint if updates were
/// skipped.
pub fn checkout_stats_lines(stats: &CheckoutStats, new_commit_id: &CommitId) -> (lines: Vec<
    OutputLine,
>)
    requires
        stats.skipped_files != 0 ==> new_commit_id@.len() >= 6,
    ensures
        lines_view(lines@) == spec_checkout_stats_lines(*stats, new_commit_id@),
{
    let mut lines: Vec<OutputLine> = Vec::new();
    if stats.added_files > 0 || stats.updated_files > 0 || stats.removed_files > 0 {
        let added = decimal(stats.added_files as u64);
        let updated = decimal(stats.updated_files as u64);
        let removed = decimal(stats.removed_files as u64);
        let mut text = glue("Added ", added.as_str());
        text.append(" files, modified ");
        text.append(updated.as_str());
        text.append(" files, removed ");
        text.append(removed.as_str());
        text.append(" files\n");
        lines.push(OutputLine { stream: OutputStream::Stderr, text });
    }
    let ghost summary = lines_view(lines@);
    if stats.skipped_files != 0 {
        let skipped = decimal(stats.skipped_files as u64);
        let warning = glue(
            skipped.as_str(),
            " of those updates were skipped because there were conflicting changes in the working copy.\n",
        );
        lines.push(OutputLine { stream: OutputStream::Warning, text: warning });
        let short = short_commit_hash(new_commit_id);
        let mut hint = glue(
            "Hint: Inspect the changes compared to the intended target with `jj diff --from ",
            short.as_str(),
        );
        hint.append("`.\nDiscard the conflicting changes with `jj restore --from ");
        hint.append(short.as_str());
        hint.append("`.\n");
        lines.push(OutputLine { stream: OutputStream::Hint, text: hint });
    }
    assert(lines_view(lines@) =~= spec_checkout_stats_lines(*stats, new_commit_id@));
    lines
}

/// What a session allows and needs when a transaction is committed.
#[derive(Debug, PartialEq, Eq, Structural, Clone, Copy)]
pub struct CommitOptions {
    /// Whether the session may update the working copy.
    pub may_update_working_copy: bool,
    /// Whether the working copy is shared with a Git repository.
    pub working_copy_shared_with_git: bool,
    /// Whether the user has configured both a name and an email address.
    pub identity_configured: bool,
}

impl CommitOptions {
    /// The options of a session, for a user with the given name and email
    /// address.
    pub fn new(helper: &WorkspaceCommandHelper, user_name: &str, user_email: &str) -> (options:
        Self)
        ensures
            options.may_update_working_copy == helper.may_update_working_copy,
            options.working_copy_shared_with_git == helper.working_copy_shared_with_git,
            options.identity_configured == (user_name@.len() > 0 && user_email@.len() > 0),
    {
        CommitOptions {
            may_update_working_copy: helper.may_update_working_copy,
            working_copy_shared_with_git: helper.working_copy_shared_with_git,
            identity_configured: !user_name.is_empty() && !user_email.is_empty(),
        }
    }
}

/// Why a transaction did not end well.
#[derive(Debug, PartialEq, Eq)]
pub enum TransactionError {
    /// The transaction was committed as `operation_id`, but the checkout of
    /// `commit_id` failed: the operation log is right and the files of the
    /// working copy lag behind it.
    CheckoutFailed { operation_id: OperationId, commit_id: CommitId, cause: ErrorChain },
    /// An event came that the coordinator did not wait for.
    UnexpectedEvent,
}

pub enum TransactionErrorView {
    CheckoutFailed { operation_id: Seq<u8>, commit_id: Seq<u8>, cause: ErrorChainView },
    UnexpectedEvent,
}

impl View for TransactionError {
    type V = TransactionErrorView;

    open spec fn view(&self) -> TransactionErrorView {
        match self {
            TransactionError::CheckoutFailed { operation_id, commit_id, cause } => {
                TransactionErrorView::CheckoutFailed {
                    operation_id: operation_id@,
                    commit_id: commit_id@,
                    cause: cause@,
                }
            },
            TransactionError::UnexpectedEvent => TransactionErrorView::UnexpectedEvent,
        }
    }
}

/// The error that the user is shown for a transaction error.
pub open spec fn spec_transaction_command_error(error: TransactionErrorView) -> CommandErrorView {
    match error {
        TransactionErrorView::CheckoutFailed {
            operation_id,
            commit_id,
            cause,
        } => CommandErrorView::InternalError(
            cause.wrapped("Failed to check out commit "@ + spec_hex(commit_id)),
        ),
        TransactionErrorView::UnexpectedEvent => CommandErrorView::InternalError(
            ErrorChainView { message: "unexpected event"@, sources: Seq::empty() },
        ),
    }
}

impl TransactionError {
    /// Whether the transaction was committed before the error: the operation
    /// log has then advanced, and only the working copy is to be updated
    /// again.
    pub fn is_recoverable(&self) -> (recoverable: bool)
        ensures
            recoverable == (self@ is CheckoutFailed),
    {
        match self {
            TransactionError::CheckoutFailed { .. } => true,
            TransactionError::UnexpectedEvent => false,
        }
    }

    /// The error to show to the user.
    pub fn into_command_error(self) -> (error: CommandError)
        ensures
            error@ == spec_transaction_command_error(self@),
    {
        match self {
            TransactionError::CheckoutFailed { operation_id, commit_id, cause } => {
                let hex = commit_id.hex();
                let message = glue("Failed to check out commit ", hex.as_str());
                internal_error_with_message(message.as_str(), cause)
            },
            TransactionError::UnexpectedEvent => internal_error(ErrorChain::new("unexpected event")),
        }
    }
}

/// What became of the working copy when a transaction was committed.
#[derive(Debug, PartialEq, Eq)]
pub struct WorkingCopyReport {
    /// What the working copy now remembers: the new operation and the tree
    /// of the commit that it holds.
    pub record: WorkingCopyRecord,
    /// The commit that the workspace is now at.
    pub new_commit: Commit,
    /// Whether that is another commit than before, of which the user is
    /// told.
    pub moved: bool,
    /// The counts of the checkout, where files were written.
    pub stats: Option<CheckoutStats>,
}

pub struct WorkingCopyReportView {
    pub record: WorkingCopyRecordView,
    pub new_commit: CommitView,
    pub moved: bool,
    pub stats: Option<CheckoutStats>,
}

impl View for WorkingCopyReport {
    type V = WorkingCopyReportView;

    open spec fn view(&self) -> WorkingCopyReportView {
        WorkingCopyReportView {
            record: self.record@,
            new_commit: self.new_commit@,
            moved: self.moved,
            stats: self.stats,
        }
    }
}

/// A report that may be absent, as plain values.
pub open spec fn optional_report_view(report: Option<WorkingCopyReport>) -> Option<
    WorkingCopyReportView,
> {
    match report {
        Some(r) => Some(r@),
        None => None,
    }
}

/// Where the coordinator stands.
#[derive(Debug)]
#[allow(inconsistent_fields)]
pub enum TransactionState {
    /// Nothing was asked yet.
    Idle,
    /// The rebase of descendants was asked for.
    Rebasing,
    /// The commits of the workspace before and after were asked for.
    ReadingCommits { rebased: Option<usize> },
    /// The export to Git was asked for.
    Exporting { rebased: Option<usize>, old_commit: Option<Commit>, new_commit: Option<Commit> },
    /// The commit of the transaction was asked for.
    Committing { rebased: Option<usize>, old_commit: Option<Commit>, new_commit: Option<Commit> },
    /// The report of the changes to the repository was asked for.
    Reporting {
        rebased: Option<usize>,
        old_commit: Option<Commit>,
        new_commit: Option<Commit>,
        operation_id: OperationId,
    },
    /// The update of the working copy was asked for.
    Updating { rebased: Option<usize>, moved: bool, new_commit: Commit, operation_id: OperationId },
    /// The coordinator has finished or failed.
    Finished,
}

#[allow(inconsistent_fields)]
pub enum TransactionStateView {
    Idle,
    Rebasing,
    ReadingCommits { rebased: Option<usize> },
    Exporting {
        rebased: Option<usize>,
        old_commit: Option<CommitView>,
        new_commit: Option<CommitView>,
    },
    Committing {
        rebased: Option<usize>,
        old_commit: Option<CommitView>,
        new_commit: Option<CommitView>,
    },
    Reporting {
        rebased: Option<usize>,
        old_commit: Option<CommitView>,
        new_commit: Option<CommitView>,
        operation_id: Seq<u8>,
    },
    Updating { rebased: Option<usize>, moved: bool, new_commit: CommitView, operation_id: Seq<u8> },
    Finished,
}

impl View for TransactionState {
    type V = TransactionStateView;

    open spec fn view(&self) -> TransactionStateView {
        match self {
            TransactionState::Idle => TransactionStateView::Idle,
            TransactionState::Rebasing => TransactionStateView::Rebasing,
            TransactionState::ReadingCommits { rebased } => TransactionStateView::ReadingCommits {
                rebased: *rebased,
            },
            TransactionState::Exporting { rebased, old_commit, new_commit } => {
                TransactionStateView::Exporting {
                    rebased: *rebased,
                    old_commit: optional_commit_view(*old_commit),
                    new_commit: optional_commit_view(*new_commit),
                }
            },
            TransactionState::Committing { rebased, old_commit, new_commit } => {
                TransactionStateView::Committing {
                    rebased: *rebased,
                    old_commit: optional_commit_view(*old_commit),
                    new_commit: optional_commit_view(*new_commit),
                }
            },
            TransactionState::Reporting { rebased, old_commit, new_commit, operation_id } => {
                TransactionStateView::Reporting {
                    rebased: *rebased,
                    old_commit: optional_commit_view(*old_commit),
                    new_commit: optional_commit_view(*new_commit),
                    operation_id: operation_id@,
                }
            },
            TransactionState::Updating { rebased, moved, new_commit, operation_id } => {
                TransactionStateView::Updating {
                    rebased: *rebased,
                    moved: *moved,
                    new_commit: new_commit@,
                    operation_id: operation_id@,
                }
            },
            TransactionState::Finished => TransactionStateView::Finished,
        }
    }
}

/// What the caller reports back.
#[derive(Debug)]
pub enum TransactionEvent {
    /// The transaction is to be finished; it has or has not changed
    /// anything.
    Start { has_changes: bool },
    /// The descendants were rebased: this many commits.
    Rebased { num_rebased: usize },
    /// The commits that the workspace has checked out before and after the
    /// transaction, where it has one.
    WorkingCopyCommits { old_commit: Option<Commit>, new_commit: Option<Commit> },
    /// The export to Git is done.
    GitExported,
    /// The transaction was committed as this operation.
    Committed { operation_id: OperationId },
    /// The changes to the repository were reported.
    ChangesReported,
    /// The working copy was updated; a checkout gave these counts.
    WorkingCopyUpdated { stats: Option<CheckoutStats> },
    /// The update of the working copy failed.
    WorkingCopyUpdateFailed { cause: ErrorChain },
}

pub enum TransactionEventView {
    Start { has_changes: bool },
    Rebased { num_rebased: usize },
    WorkingCopyCommits { old_commit: Option<CommitView>, new_commit: Option<CommitView> },
    GitExported,
    Committed { operation_id: Seq<u8> },
    ChangesReported,
    WorkingCopyUpdated { stats: Option<CheckoutStats> },
    WorkingCopyUpdateFailed { cause: ErrorChainView },
}

impl View for TransactionEvent {
    type V = TransactionEventView;

    open spec fn view(&self) -> TransactionEventView {
        match self {
            TransactionEvent::Start { has_changes } => TransactionEventView::Start {
                has_changes: *has_changes,
            },
            TransactionEvent::Rebased { num_rebased } => TransactionEventView::Rebased {
                num_rebased: *num_rebased,
            },
            TransactionEvent::WorkingCopyCommits { old_commit, new_commit } => {
                TransactionEventView::WorkingCopyCommits {
                    old_commit: optional_commit_view(*old_commit),
                    new_commit: optional_commit_view(*new_commit),
                }
            },
            TransactionEvent::GitExported => TransactionEventView::GitExported,
            TransactionEvent::Committed { operation_id } => TransactionEventView::Committed {
                operation_id: operation_id@,
            },
            TransactionEvent::ChangesReported => TransactionEventView::ChangesReported,
            TransactionEvent::WorkingCopyUpdated { stats } => {
                TransactionEventView::WorkingCopyUpdated { stats: *stats }
            },
            TransactionEvent::WorkingCopyUpdateFailed { cause } => {
                TransactionEventView::WorkingCopyUpdateFailed { cause: cause@ }
            },
        }
    }
}

/// What the caller is asked to do next.
#[derive(Debug, PartialEq, Eq)]
pub enum TransactionAction {
    /// Tell the user that nothing changed, and drop the transaction.
    NothingChanged,
    /// Rebase the descendants of the rewritten commits.
    RebaseDescendants,
    /// Read the commits that the workspace has checked out in the
    /// repository before the transaction and in the transaction. The user is
    /// told of `rebased` descendants, if any.
    ReadWorkingCopyCommits { rebased: Option<usize> },
    /// Reset the Git head to the parents of this commit, if there is one,
    /// and export the refs to Git.
    ExportToGit { reset_head_to: Option<Commit> },
    /// Commit the transaction.
    Commit,
    /// Report the conflicts that the new operation brought or resolved.
    ReportRepoChanges,
    /// Bring the working copy in line with the new operation.
    UpdateWorkingCopy(WorkingCopyUpdate),
    /// The transaction is committed as `operation_id`. The user is warned
    /// where no name or email address is configured.
    Finish {
        operation_id: OperationId,
        working_copy: Option<WorkingCopyReport>,
        warn_missing_identity: bool,
    },
    /// Give up.
    Fail(TransactionError),
}

pub enum TransactionActionView {
    NothingChanged,
    RebaseDescendants,
    ReadWorkingCopyCommits { rebased: Option<usize> },
    ExportToGit { reset_head_to: Option<CommitView> },
    Commit,
    ReportRepoChanges,
    UpdateWorkingCopy(WorkingCopyUpdateView),
    Finish {
        operation_id: Seq<u8>,
        working_copy: Option<WorkingCopyReportView>,
        warn_missing_identity: bool,
    },
    Fail(TransactionErrorView),
}

impl View for TransactionAction {
    type V = TransactionActionView;

    open spec fn view(&self) -> TransactionActionView {
        match self {
            TransactionAction::NothingChanged => TransactionActionView::NothingChanged,
            TransactionAction::RebaseDescendants => TransactionActionView::RebaseDescendants,
            TransactionAction::ReadWorkingCopyCommits { rebased } => {
                TransactionActionView::ReadWorkingCopyCommits { rebased: *rebased }
            },
            TransactionAction::ExportToGit { reset_head_to } => TransactionActionView::ExportToGit {
                reset_head_to: optional_commit_view(*reset_head_to),
            },
            TransactionAction::Commit => TransactionActionView::Commit,
            TransactionAction::ReportRepoChanges => TransactionActionView::ReportRepoChanges,
            TransactionAction::UpdateWorkingCopy(update) => {
                TransactionActionView::UpdateWorkingCopy(update@)
            },
            TransactionAction::Finish { operation_id, working_copy, warn_missing_identity } => {
                TransactionActionView::Finish {
                    operation_id: operation_id@,
                    working_copy: optional_report_view(*working_copy),
                    warn_missing_identity: *warn_missing_identity,
                }
            },
            TransactionAction::Fail(error) => TransactionActionView::Fail(error@),
        }
    }
}

impl TransactionActionView {
    /// Whether the action changes the repository, the operation log or the
    /// working copy.
    pub open spec fn mutates(self) -> bool {
        self is RebaseDescendants || self is ExportToGit || self is Commit
            || self is UpdateWorkingCopy
    }
}

/// The step taken once the changes to the repository are reported.
pub open spec fn spec_after_report(
    rebased: Option<usize>,
    old_commit: Option<CommitView>,
    new_commit: Option<CommitView>,
    operation_id: Seq<u8>,
    options: CommitOptions,
) -> (TransactionStateView, TransactionActionView) {
    match new_commit {
        Some(commit) if options.may_update_working_copy => (
            TransactionStateView::Updating {
                rebased,
                moved: spec_working_copy_moved(old_commit, commit),
                new_commit: commit,
                operation_id,
            },
            TransactionActionView::UpdateWorkingCopy(
                spec_update_working_copy(operation_id, old_commit, commit),
            ),
        ),
        _ => (
            TransactionStateView::Finished,
            TransactionActionView::Finish {
                operation_id,
                working_copy: None,
                warn_missing_identity: !options.identity_configured,
            },
        ),
    }
}

/// The step from a state on an event: the next state and what to do.
pub open spec fn spec_step(
    state: TransactionStateView,
    event: TransactionEventView,
    options: CommitOptions,
) -> (TransactionStateView, TransactionActionView) {
    match (state, event) {
        (TransactionStateView::Idle, TransactionEventView::Start { has_changes }) => {
            if has_changes {
                (TransactionStateView::Rebasing, TransactionActionView::RebaseDescendants)
            } else {
                (TransactionStateView::Finished, TransactionActionView::NothingChanged)
            }
        },
        (TransactionStateView::Rebasing, TransactionEventView::Rebased { num_rebased }) => (
            TransactionStateView::ReadingCommits { rebased: spec_rebase_notice(num_rebased) },
            TransactionActionView::ReadWorkingCopyCommits {
                rebased: spec_rebase_notice(num_rebased),
            },
        ),
        (
            TransactionStateView::ReadingCommits { rebased },
            TransactionEventView::WorkingCopyCommits { old_commit, new_commit },
        ) => {
            if options.working_copy_shared_with_git {
                (
                    TransactionStateView::Exporting { rebased, old_commit, new_commit },
                    TransactionActionView::ExportToGit { reset_head_to: new_commit },
                )
            } else {
                (
                    TransactionStateView::Committing { rebased, old_commit, new_commit },
                    TransactionActionView::Commit,
                )
            }
        },
        (
            TransactionStateView::Exporting { rebased, old_commit, new_commit },
            TransactionEventView::GitExported,
        ) => (
            TransactionStateView::Committing { rebased, old_commit, new_commit },
            TransactionActionView::Commit,
        ),
        (
            TransactionStateView::Committing { rebased, old_commit, new_commit },
            TransactionEventView::Committed { operation_id },
        ) => (
            TransactionStateView::Reporting { rebased, old_commit, new_commit, operation_id },
            TransactionActionView::ReportRepoChanges,
        ),
        (
            TransactionStateView::Reporting { rebased, old_commit, new_commit, operation_id },
            TransactionEventView::ChangesReported,
        ) => spec_after_report(rebased, old_commit, new_commit, operation_id, options),
        (
            TransactionStateView::Updating { rebased, moved, new_commit, operation_id },
            TransactionEventView::WorkingCopyUpdated { stats },
        ) => (
            TransactionStateView::Finished,
            TransactionActionView::Finish {
                operation_id,
                working_copy: Some(
                    WorkingCopyReportView {
                        record: WorkingCopyRecordView { operation_id, tree_id: new_commit.tree_id },
                        new_commit,
                        moved,
                        stats,
                    },
                ),
                warn_missing_identity: !options.identity_configured,
            },
        ),
        (
            TransactionStateView::Updating { rebased, moved, new_commit, operation_id },
            TransactionEventView::WorkingCopyUpdateFailed { cause },
        ) => (
            TransactionStateView::Finished,
            TransactionActionView::Fail(
                TransactionErrorView::CheckoutFailed {
                    operation_id,
                    commit_id: new_commit.id,
                    cause,
                },
            ),
        ),
        _ => (
            TransactionStateView::Finished,
            TransactionActionView::Fail(TransactionErrorView::UnexpectedEvent),
        ),
    }
}

/// Decides, step by step, how a transaction is committed.
#[derive(Debug)]
pub struct TransactionCoordinator {
    state: TransactionState,
    options: CommitOptions,
}

impl TransactionCoordinator {
    /// Where the coordinator stands.
    pub closed spec fn state(&self) -> TransactionStateView {
        self.state@
    }

    /// What the session allows.
    pub closed spec fn options(&self) -> CommitOptions {
        self.options
    }

    /// A coordinator that was asked nothing yet.
    pub fn new(options: CommitOptions) -> (coordinator: Self)
        ensures
            coordinator.state() == TransactionStateView::Idle,
            coordinator.options() == options,
    {
        TransactionCoordinator { state: TransactionState::Idle, options }
    }

    /// Whether the coordinator has finished or failed.
    pub fn is_finished(&self) -> (finished: bool)
        ensures
            finished == (self.state() is Finished),
    {
        match &self.state {
            TransactionState::Finished => true,
            _ => false,
        }
    }

    fn moved_on(options: CommitOptions, state: TransactionState, action: TransactionAction) -> (next:
        (TransactionCoordinator, TransactionAction))
        ensures
            next.0.state() == state@,
            next.0.options() == options,
            next.1 == action,
    {
        (TransactionCoordinator { state, options }, action)
    }

    fn unexpected(options: CommitOptions) -> (next: (TransactionCoordinator, TransactionAction))
        ensures
            next.0.state() == TransactionStateView::Finished,
            next.0.options() == options,
            next.1@ == TransactionActionView::Fail(TransactionErrorView::UnexpectedEvent),
    {
        (
            TransactionCoordinator { state: TransactionState::Finished, options },
            TransactionAction::Fail(TransactionError::UnexpectedEvent),
        )
    }

    /// Takes what came of the last action and says what to do next.
    ///
    /// An event that the coordinator did not wait for ends the protocol
    /// with [`TransactionError::UnexpectedEvent`].
    pub fn step(self, event: TransactionEvent) -> (next: (TransactionCoordinator, TransactionAction))
        ensures
            next.0.options() == self.options(),
            (next.0.state(), next.1@) == spec_step(self.state(), event@, self.options()),
    {
        let options = self.options;
        match self.state {
            TransactionState::Idle => match event {
                TransactionEvent::Start { has_changes } => {
                    if has_changes {
                        Self::moved_on(
                            options,
                            TransactionState::Rebasing,
                            TransactionAction::RebaseDescendants,
                        )
                    } else {
                        Self::moved_on(
                            options,
                            TransactionState::Finished,
                            TransactionAction::NothingChanged,
                        )
                    }
                },
                _ => Self::unexpected(options),
            },
            TransactionState::Rebasing => match event {
                TransactionEvent::Rebased { num_rebased } => {
                    let rebased = rebase_notice(num_rebased);
                    Self::moved_on(
                        options,
                        TransactionState::ReadingCommits { rebased },
                        TransactionAction::ReadWorkingCopyCommits { rebased },
                    )
                },
                _ => Self::unexpected(options),
            },
            TransactionState::ReadingCommits { rebased } => match event {
                TransactionEvent::WorkingCopyCommits { old_commit, new_commit } => {
                    if options.working_copy_shared_with_git {
                        let reset_head_to = match &new_commit {
                            Some(commit) => Some(commit.clone()),
                            None => None,
                        };
                        Self::moved_on(
                            options,
                            TransactionState::Exporting { rebased, old_commit, new_commit },
                            TransactionAction::ExportToGit { reset_head_to },
                        )
                    } else {
                        Self::moved_on(
                            options,
                            TransactionState::Committing { rebased, old_commit, new_commit },
                            TransactionAction::Commit,
                        )
                    }
                },
                _ => Self::unexpected(options),
            },
            TransactionState::Exporting { rebased, old_commit, new_commit } => match event {
                TransactionEvent::GitExported => Self::moved_on(
                    options,
                    TransactionState::Committing { rebased, old_commit, new_commit },
                    TransactionAction::Commit,
                ),
                _ => Self::unexpected(options),
            },
            TransactionState::Committing { rebased, old_commit, new_commit } => match event {
                TransactionEvent::Committed { operation_id } => Self::moved_on(
                    options,
                    TransactionState::Reporting { rebased, old_commit, new_commit, operation_id },
                    TransactionAction::ReportRepoChanges,
                ),
                _ => Self::unexpected(options),
            },
            TransactionState::Reporting {
                rebased,
                old_commit,
                new_commit,
                operation_id,
            } => match event {
                TransactionEvent::ChangesReported => {
                    match new_commit {
                        Some(commit) if options.may_update_working_copy => {
                            let update = update_working_copy(
                                &operation_id,
                                old_commit.as_ref(),
                                &commit,
                            );
                            let moved = working_copy_moved(old_commit.as_ref(), &commit);
                            Self::moved_on(
                                options,
                                TransactionState::Updating {
                                    rebased,
                                    moved,
                                    new_commit: commit,
                                    operation_id,
                                },
                                TransactionAction::UpdateWorkingCopy(update),
                            )
                        },
                        _ => Self::moved_on(
                            options,
                            TransactionState::Finished,
                            TransactionAction::Finish {
                                operation_id,
                                working_copy: None,
                                warn_missing_identity: !options.identity_configured,
                            },
                        ),
                    }
                },
                _ => Self::unexpected(options),
            },
            TransactionState::Updating { rebased, moved, new_commit, operation_id } => match event {
                TransactionEvent::WorkingCopyUpdated { stats } => {
                    let record = WorkingCopyRecord {
                        operation_id: operation_id.clone(),
                        tree_id: new_commit.tree_id.clone(),
                    };
                    Self::moved_on(
                        options,
                        TransactionState::Finished,
                        TransactionAction::Finish {
                            operation_id,
                            working_copy: Some(WorkingCopyReport { record, new_commit, moved, stats }),
                            warn_missing_identity: !options.identity_configured,
                        },
                    )
                },
                TransactionEvent::WorkingCopyUpdateFailed { cause } => Self::moved_on(
                    options,
                    TransactionState::Finished,
                    TransactionAction::Fail(
                        TransactionError::CheckoutFailed {
                            operation_id,
                            commit_id: new_commit.id,
                            cause,
                        },
                    ),
                ),
                _ => Self::unexpected(options),
            },
            TransactionState::Finished => Self::unexpected(options),
        }
    }
}

/// The state of a coordinator that started idle and has taken the first `k`
/// of the given events.
pub open spec fn state_after(
    events: Seq<TransactionEventView>,
    options: CommitOptions,
    k: nat,
) -> TransactionStateView
    decreases k,
{
    if k == 0 {
        TransactionStateView::Idle
    } else {
        spec_step(state_after(events, options, (k - 1) as nat), events[k - 1], options).0
    }
}

/// What a coordinator that started idle asks for on the event at place `k`.
pub open spec fn action_at(
    events: Seq<TransactionEventView>,
    options: CommitOptions,
    k: nat,
) -> TransactionActionView {
    spec_step(state_after(events, options, k), events[k as int], options).1
}

/// Finishing a transaction that changed nothing is answered by "nothing
/// changed", and whatever the caller reports after that, it is never asked
/// to rebase, to export, to commit or to touch the working copy: the
/// operation log, the view and the record of the working copy stay as they
/// are.
pub proof fn lemma_no_changes_no_commit(
    events: Seq<TransactionEventView>,
    options: CommitOptions,
    k: nat,
)
    requires
        events.len() > 0,
        events[0] == (TransactionEventView::Start { has_changes: false }),
        k < events.len(),
    ensures
        action_at(events, options, 0) == TransactionActionView::NothingChanged,
        !action_at(events, options, k).mutates(),
        k > 0 ==> action_at(events, options, k) == TransactionActionView::Fail(
            TransactionErrorView::UnexpectedEvent,
        ),
        state_after(events, options, k + 1) == TransactionStateView::Finished,
    decreases k,
{
    reveal_with_fuel(state_after, 2);
    if k > 0 {
        lemma_no_changes_no_commit(events, options, (k - 1) as nat);
    }
}

/// The steps come in their order: the commit is asked for only once the
/// commits of the workspace are read, after the export to Git where the
/// working copy is shared with Git; the report only in answer to the commit;
/// and the end only in answer to the report or to the update of the working
/// copy.
pub proof fn lemma_steps_in_order(
    state: TransactionStateView,
    event: TransactionEventView,
    options: CommitOptions,
)
    ensures
        ({
            let action = spec_step(state, event, options).1;
            &&& action is RebaseDescendants ==> state is Idle
            &&& action is ReadWorkingCopyCommits ==> state is Rebasing
            &&& action is ExportToGit ==> state is ReadingCommits
                && options.working_copy_shared_with_git
            &&& action is Commit ==> (state is ReadingCommits
                && !options.working_copy_shared_with_git) || state is Exporting
            &&& action is ReportRepoChanges ==> state is Committing && event is Committed
            &&& action is Finish ==> state is Reporting || state is Updating
        }),
{
}

/// The working copy gets a new record only in answer to a successful update,
/// and the record then names the committed operation and the tree of the
/// commit that the workspace is at.
pub proof fn lemma_record_follows_update(
    state: TransactionStateView,
    event: TransactionEventView,
    options: CommitOptions,
)
    requires
        spec_step(state, event, options).1 is Finish,
        spec_step(state, event, options).1->working_copy is Some,
    ensures
        state is Updating,
        event is WorkingCopyUpdated,
        ({
            let report = spec_step(state, event, options).1->working_copy->0;
            &&& report.record.operation_id == spec_step(state, event, options).1->operation_id
            &&& report.record.tree_id == report.new_commit.tree_id
        }),
{
}

/// The working copy is only touched after the commit: its update is asked
/// for only in answer to the report of the changes to the repository, which
/// follows the commit, and only of a session that may update the working
/// copy.
pub proof fn lemma_update_needs_permission(
    state: TransactionStateView,
    event: TransactionEventView,
    options: CommitOptions,
)
    requires
        spec_step(state, event, options).1 is UpdateWorkingCopy,
    ensures
        options.may_update_working_copy,
        state is Reporting,
        event is ChangesReported,
{
}

} // verus!
