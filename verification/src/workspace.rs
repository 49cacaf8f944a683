//! What a command may do to the working copy of its workspace.
//!
//! A session that was loaded at the head of the operation log, and that was
//! not told to ignore the working copy, may snapshot and update it. One that
//! was loaded at an earlier operation, or told to ignore the working copy,
//! leaves it alone.

use crate::command_error::{
    user_error, user_error_with_hint, CommandError, CommandErrorView, ErrorChain, ErrorChainView,
};
use crate::commit::Commit;
use crate::object_id::TreeId;
use crate::text::str_equals;
use vstd::prelude::*;
use vstd::string::*;

verus! {

/// The options that every command takes, as far as the session reads them.
#[derive(Debug, PartialEq, Eq)]
pub struct GlobalArgs {
    /// Path to repository to operate on
    pub repository: Option<String>,
    /// Don't snapshot the working copy, and don't update it
    pub ignore_working_copy: bool,
    /// Operation to load the repo at
    pub at_operation: String,
    /// Enable verbose logging
    pub verbose: bool,
}

/// One step of what a command does before it runs.
#[derive(Debug, PartialEq, Eq, Structural, Clone, Copy)]
pub enum SnapshotStep {
    /// Import the head of the Git repository that shares the working copy.
    ImportGitHead,
    /// Snapshot the working copy.
    SnapshotWorkingCopy,
    /// Import the refs of the Git repository that shares the working copy.
    ImportGitRefs,
}

/// The error of a command that must write to a working copy that it may not
/// touch.
pub open spec fn spec_not_writable(ignore_working_copy: bool) -> CommandErrorView {
    CommandErrorView::UserError {
        err: ErrorChainView {
            message: "This command must be able to update the working copy."@,
            sources: Seq::empty(),
        },
        hint: Some(
            if ignore_working_copy {
                "Don't use --ignore-working-copy."@
            } else {
                "Don't use --at-op."@
            },
        ),
    }
}

/// The error of a command that needs a checked-out commit in a workspace
/// that has none.
pub open spec fn spec_nothing_checked_out() -> CommandErrorView {
    CommandErrorView::UserError {
        err: ErrorChainView {
            message: "Nothing checked out in this workspace"@,
            sources: Seq::empty(),
        },
        hint: None,
    }
}

/// The error of a command that finds the working copy changed under it.
pub open spec fn spec_concurrent_working_copy() -> CommandErrorView {
    CommandErrorView::UserError {
        err: ErrorChainView {
            message: "Concurrent working copy operation. Try again."@,
            sources: Seq::empty(),
        },
        hint: None,
    }
}

/// What a command knows of its workspace before it touches the repository.
#[derive(Debug, PartialEq, Eq, Clone, Copy)]
pub struct WorkspaceCommandHelper {
    pub ignore_working_copy: bool,
    pub may_update_working_copy: bool,
    pub working_copy_shared_with_git: bool,
}

impl WorkspaceCommandHelper {
    /// The helper of a command with the given options, in a workspace that
    /// does or does not share its working copy with a Git repository.
    pub fn new(global_args: &GlobalArgs, working_copy_shared_with_git: bool) -> (helper: Self)
        ensures
            helper.ignore_working_copy == global_args.ignore_working_copy,
            helper.working_copy_shared_with_git == working_copy_shared_with_git,
            helper.may_update_working_copy == (global_args.at_operation@ == "@"@
                && !global_args.ignore_working_copy),
    {
        let loaded_at_head = str_equals(global_args.at_operation.as_str(), "@");
        let may_update_working_copy = loaded_at_head && !global_args.ignore_working_copy;
        WorkspaceCommandHelper {
            ignore_working_copy: global_args.ignore_working_copy,
            may_update_working_copy,
            working_copy_shared_with_git,
        }
    }

    pub fn working_copy_shared_with_git(&self) -> (shared: bool)
        ensures
            shared == self.working_copy_shared_with_git,
    {
        self.working_copy_shared_with_git
    }

    /// Fails unless the command may update the working copy, with a hint at
    /// the option that forbids it.
    pub fn check_working_copy_writable(&self) -> (outcome: Result<(), CommandError>)
        ensures
            outcome.is_ok() == self.may_update_working_copy,
            outcome.is_err() ==> outcome->Err_0@ == spec_not_writable(self.ignore_working_copy),
    {
        if self.may_update_working_copy {
            Ok(())
        } else {
            let hint = if self.ignore_working_copy {
                "Don't use --ignore-working-copy."
            } else {
                "Don't use --at-op."
            };
            Err(
                user_error_with_hint(
                    ErrorChain::new("This command must be able to update the working copy."),
                    hint,
                ),
            )
        }
    }

    /// The steps of snapshotting before a command runs: none where the
    /// working copy may not be updated; else the snapshot, between an import
    /// of the Git head and an import of the Git refs where the working copy
    /// is shared with a Git repository.
    pub fn maybe_snapshot(&self) -> (steps: Vec<SnapshotStep>)
        ensures
            !self.may_update_working_copy ==> steps@ == Seq::<SnapshotStep>::empty(),
            self.may_update_working_copy && !self.working_copy_shared_with_git ==> steps@ == seq![
                SnapshotStep::SnapshotWorkingCopy,
            ],
            self.may_update_working_copy && self.working_copy_shared_with_git ==> steps@ == seq![
                SnapshotStep::ImportGitHead,
                SnapshotStep::SnapshotWorkingCopy,
                SnapshotStep::ImportGitRefs,
            ],
    {
        let mut steps: Vec<SnapshotStep> = Vec::new();
        if self.may_update_working_copy {
            if self.working_copy_shared_with_git {
                steps.push(SnapshotStep::ImportGitHead);
            }
            steps.push(SnapshotStep::SnapshotWorkingCopy);
            if self.working_copy_shared_with_git {
                steps.push(SnapshotStep::ImportGitRefs);
            }
        }
        assert(!self.may_update_working_copy ==> steps@ =~= Seq::<SnapshotStep>::empty());
        assert(self.may_update_working_copy && !self.working_copy_shared_with_git ==> steps@
            =~= seq![SnapshotStep::SnapshotWorkingCopy]);
        assert(self.may_update_working_copy && self.working_copy_shared_with_git ==> steps@
            =~= seq![
            SnapshotStep::ImportGitHead,
            SnapshotStep::SnapshotWorkingCopy,
            SnapshotStep::ImportGitRefs,
        ]);
        steps
    }

    /// The commit to mutate the working copy from, before the working copy
    /// is locked: the command must be allowed to write, and the workspace
    /// must have a commit checked out.
    pub fn unchecked_start_working_copy_mutation(&self, wc_commit: Option<&Commit>) -> (outcome:
        Result<Commit, CommandError>)
        ensures
            !self.may_update_working_copy ==> outcome.is_err() && outcome->Err_0@
                == spec_not_writable(self.ignore_working_copy),
            self.may_update_working_copy && wc_commit.is_none() ==> outcome.is_err()
                && outcome->Err_0@ == spec_nothing_checked_out(),
            self.may_update_working_copy && wc_commit.is_some() ==> outcome.is_ok()
                && outcome->Ok_0@ == wc_commit.unwrap()@,
    {
        match self.check_working_copy_writable() {
            Err(error) => {
                return Err(error);
            },
            Ok(()) => {},
        }
        match wc_commit {
            Some(commit) => Ok(commit.clone()),
            None => Err(user_error(ErrorChain::new("Nothing checked out in this workspace"))),
        }
    }

    /// The commit to mutate the working copy from, once the working copy is
    /// locked and shows `locked_tree_id` as the tree it holds: as
    /// [`Self::unchecked_start_working_copy_mutation`], and the tree of the
    /// commit must still be the one that the working copy holds.
    pub fn start_working_copy_mutation(
        &self,
        wc_commit: Option<&Commit>,
        locked_tree_id: &TreeId,
    ) -> (outcome: Result<Commit, CommandError>)
        ensures
            !self.may_update_working_copy ==> outcome.is_err() && outcome->Err_0@
                == spec_not_writable(self.ignore_working_copy),
            self.may_update_working_copy && wc_commit.is_none() ==> outcome.is_err()
                && outcome->Err_0@ == spec_nothing_checked_out(),
            self.may_update_working_copy && wc_commit.is_some() && wc_commit.unwrap()@.tree_id
                != locked_tree_id@ ==> outcome.is_err() && outcome->Err_0@
                == spec_concurrent_working_copy(),
            self.may_update_working_copy && wc_commit.is_some() && wc_commit.unwrap()@.tree_id
                == locked_tree_id@ ==> outcome.is_ok() && outcome->Ok_0@ == wc_commit.unwrap()@,
    {
        let commit = match self.unchecked_start_working_copy_mutation(wc_commit) {
            Err(error) => {
                return Err(error);
            },
            Ok(commit) => commit,
        };
        if !commit.tree_id.equals(locked_tree_id) {
            return Err(user_error(ErrorChain::new("Concurrent working copy operation. Try again.")));
        }
        Ok(commit)
    }

    /// Fails on an empty set of revisions.
    pub fn check_non_empty(&self, commits: &Vec<Commit>) -> (outcome: Result<(), CommandError>)
        ensures
            outcome.is_ok() == (commits.len() > 0),
            outcome.is_err() ==> outcome->Err_0@ == spec_empty_revision_set(),
    {
        if commits.len() == 0 {
            return Err(user_error(ErrorChain::new("Empty revision set")));
        }
        Ok(())
    }
}

/// The error of a command that was given an empty set of revisions.
pub open spec fn spec_empty_revision_set() -> CommandErrorView {
    CommandErrorView::UserError {
        err: ErrorChainView { message: "Empty revision set"@, sources: Seq::empty() },
        hint: None,
    }
}

} // verus!
