use jj_session::command_error::{CommandError, ErrorChain};
use jj_session::commit::Commit;
use jj_session::object_id::{ChangeId, CommitId, TreeId};
use jj_session::workspace::{GlobalArgs, SnapshotStep, WorkspaceCommandHelper};

fn args(at_operation: &str, ignore_working_copy: bool) -> GlobalArgs {
    GlobalArgs {
        repository: None,
        ignore_working_copy,
        at_operation: at_operation.to_string(),
        verbose: false,
    }
}

fn wcommit(tag: u8, tree: u8) -> Commit {
    Commit::new(
        CommitId::new(vec![tag; 8]),
        ChangeId::new(vec![tag; 8]),
        TreeId::new(vec![tree; 8]),
    )
}

fn user(message: &str, hint: Option<&str>) -> CommandError {
    CommandError::UserError {
        err: ErrorChain { message: message.to_string(), sources: vec![] },
        hint: hint.map(|h| h.to_string()),
    }
}

#[test]
fn session_at_head_may_update_working_copy() {
    let helper = WorkspaceCommandHelper::new(&args("@", false), false);
    assert!(helper.may_update_working_copy);
    assert!(!helper.working_copy_shared_with_git());
    assert_eq!(helper.check_working_copy_writable(), Ok(()));
    assert_eq!(helper.maybe_snapshot(), vec![SnapshotStep::SnapshotWorkingCopy]);
}

#[test]
fn session_shared_with_git_imports_around_snapshot() {
    let helper = WorkspaceCommandHelper::new(&args("@", false), true);
    assert!(helper.working_copy_shared_with_git());
    assert_eq!(
        helper.maybe_snapshot(),
        vec![
            SnapshotStep::ImportGitHead,
            SnapshotStep::SnapshotWorkingCopy,
            SnapshotStep::ImportGitRefs
        ]
    );
}

#[test]
fn session_at_earlier_operation_leaves_working_copy() {
    let helper = WorkspaceCommandHelper::new(&args("abc123", false), true);
    assert!(!helper.may_update_working_copy);
    assert_eq!(helper.maybe_snapshot(), Vec::<SnapshotStep>::new());
    assert_eq!(
        helper.check_working_copy_writable(),
        Err(user(
            "This command must be able to update the working copy.",
            Some("Don't use --at-op.")
        ))
    );
}

#[test]
fn session_ignoring_working_copy_leaves_it() {
    let helper = WorkspaceCommandHelper::new(&args("@", true), false);
    assert!(!helper.may_update_working_copy);
    assert_eq!(
        helper.check_working_copy_writable(),
        Err(user(
            "This command must be able to update the working copy.",
            Some("Don't use --ignore-working-copy.")
        ))
    );
    assert_eq!(
        helper.unchecked_start_working_copy_mutation(Some(&wcommit(1, 10))),
        Err(user(
            "This command must be able to update the working copy.",
            Some("Don't use --ignore-working-copy.")
        ))
    );
}

#[test]
fn mutation_needs_checked_out_commit() {
    let helper = WorkspaceCommandHelper::new(&args("@", false), false);
    assert_eq!(
        helper.unchecked_start_working_copy_mutation(None),
        Err(user("Nothing checked out in this workspace", None))
    );
    assert_eq!(
        helper.unchecked_start_working_copy_mutation(Some(&wcommit(1, 10))),
        Ok(wcommit(1, 10))
    );
    assert_eq!(
        helper.start_working_copy_mutation(None, &TreeId::new(vec![10; 8])),
        Err(user("Nothing checked out in this workspace", None))
    );
}

#[test]
fn mutation_detects_concurrent_working_copy_change() {
    let helper = WorkspaceCommandHelper::new(&args("@", false), false);
    assert_eq!(
        helper.start_working_copy_mutation(Some(&wcommit(1, 10)), &TreeId::new(vec![10; 8])),
        Ok(wcommit(1, 10))
    );
    assert_eq!(
        helper.start_working_copy_mutation(Some(&wcommit(1, 10)), &TreeId::new(vec![11; 8])),
        Err(user("Concurrent working copy operation. Try again.", None))
    );
}

#[test]
fn empty_revision_set_is_a_user_error() {
    let helper = WorkspaceCommandHelper::new(&args("@", false), false);
    assert_eq!(helper.check_non_empty(&vec![]), Err(user("Empty revision set", None)));
    assert_eq!(helper.check_non_empty(&vec![wcommit(1, 10)]), Ok(()));
}
