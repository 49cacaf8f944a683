//! What follows an import from the Git repository that shares the working
//! copy.

use crate::object_id::CommitId;
use vstd::prelude::*;

verus! {

/// A commit id that may be absent, as plain values.
pub open spec fn optional_id_view(id: Option<CommitId>) -> Option<Seq<u8>> {
    match id {
        Some(i) => Some(i@),
        None => None,
    }
}

/// What to do after the head of the Git repository was imported.
#[derive(Debug, PartialEq, Eq)]
pub enum GitHeadImport {
    /// The import changed nothing: drop the transaction.
    Nothing,
    /// Git has a new head. Abandon the old commit of the workspace, if it
    /// had one, check the new head out in the repository, reset the working
    /// copy to it without touching its files, rebase the descendants, commit
    /// and record the operation in the working copy. The user is told where
    /// Git had a head before.
    ResetToHead { abandon: Option<CommitId>, new_head: CommitId, announce: bool },
    /// Git has no head any more: finish the transaction as any other.
    FinishTransaction,
}

pub enum GitHeadImportView {
    Nothing,
    ResetToHead { abandon: Option<Seq<u8>>, new_head: Seq<u8>, announce: bool },
    FinishTransaction,
}

impl View for GitHeadImport {
    type V = GitHeadImportView;

    open spec fn view(&self) -> GitHeadImportView {
        match self {
            GitHeadImport::Nothing => GitHeadImportView::Nothing,
            GitHeadImport::ResetToHead { abandon, new_head, announce } => {
                GitHeadImportView::ResetToHead {
                    abandon: optional_id_view(*abandon),
                    new_head: new_head@,
                    announce: *announce,
                }
            },
            GitHeadImport::FinishTransaction => GitHeadImportView::FinishTransaction,
        }
    }
}

/// What [`plan_git_head_import`] returns.
pub open spec fn spec_plan_git_head_import(
    has_changes: bool,
    new_git_head: Option<Seq<u8>>,
    old_wc_commit_id: Option<Seq<u8>>,
    old_git_head_present: bool,
) -> GitHeadImportView {
    if !has_changes {
        GitHeadImportView::Nothing
    } else {
        match new_git_head {
            Some(new_head) => GitHeadImportView::ResetToHead {
                abandon: old_wc_commit_id,
                new_head,
                announce: old_git_head_present,
            },
            None => GitHeadImportView::FinishTransaction,
        }
    }
}

/// Decides what follows the import of the Git head. `new_git_head` is the
/// commit that Git now has as its head, if it has one and no conflict,
/// `old_wc_commit_id` the commit that the workspace had checked out, and
/// `old_git_head_present` whether Git had a head before.
pub fn plan_git_head_import(
    has_changes: bool,
    new_git_head: Option<CommitId>,
    old_wc_commit_id: Option<CommitId>,
    old_git_head_present: bool,
) -> (plan: GitHeadImport)
    ensures
        plan@ == spec_plan_git_head_import(
            has_changes,
            optional_id_view(new_git_head),
            optional_id_view(old_wc_commit_id),
            old_git_head_present,
        ),
{
    if !has_changes {
        return GitHeadImport::Nothing;
    }
    match new_git_head {
        Some(new_head) => GitHeadImport::ResetToHead {
            abandon: old_wc_commit_id,
            new_head,
            // Don't print verbose message on initial checkout.
            announce: old_git_head_present,
        },
        // Unlikely, but the HEAD ref got deleted by git?
        None => GitHeadImport::FinishTransaction,
    }
}

} // verus!
