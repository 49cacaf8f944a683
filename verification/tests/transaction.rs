use jj_session::command_error::{CommandError, ErrorChain, OutputLine, OutputStream};
use jj_session::commit::Commit;
use jj_session::object_id::{ChangeId, CommitId, OperationId, TreeId};
use jj_session::staleness::WorkingCopyRecord;
use jj_session::transaction::{
    checkout_stats_lines, update_working_copy, working_copy_moved, CheckoutStats, CommitOptions,
    TransactionAction, TransactionCoordinator, TransactionError, TransactionEvent,
    WorkingCopyReport, WorkingCopyUpdate,
};
use jj_session::workspace::{GlobalArgs, WorkspaceCommandHelper};

fn top_id(tag: u8) -> OperationId {
    OperationId::new(vec![tag; 8])
}

fn tcommit(tag: u8, tree: u8) -> Commit {
    Commit::new(
        CommitId::new(vec![tag; 8]),
        ChangeId::new(vec![tag; 8]),
        TreeId::new(vec![tree; 8]),
    )
}

fn options(may_update: bool, git: bool, identity: bool) -> CommitOptions {
    CommitOptions {
        may_update_working_copy: may_update,
        working_copy_shared_with_git: git,
        identity_configured: identity,
    }
}

fn stats(updated: u32, added: u32, removed: u32, skipped: u32) -> CheckoutStats {
    CheckoutStats {
        updated_files: updated,
        added_files: added,
        removed_files: removed,
        skipped_files: skipped,
    }
}

#[test]
fn transaction_without_changes_is_not_committed() {
    let coordinator = TransactionCoordinator::new(options(true, true, true));
    assert!(!coordinator.is_finished());
    let (coordinator, action) = coordinator.step(TransactionEvent::Start { has_changes: false });
    assert_eq!(action, TransactionAction::NothingChanged);
    assert!(coordinator.is_finished());
    let (coordinator, action) =
        coordinator.step(TransactionEvent::Committed { operation_id: top_id(1) });
    assert_eq!(action, TransactionAction::Fail(TransactionError::UnexpectedEvent));
    assert!(coordinator.is_finished());
}

#[test]
fn transaction_commits_and_checks_out() {
    let coordinator = TransactionCoordinator::new(options(true, false, true));
    let (coordinator, action) = coordinator.step(TransactionEvent::Start { has_changes: true });
    assert_eq!(action, TransactionAction::RebaseDescendants);
    let (coordinator, action) = coordinator.step(TransactionEvent::Rebased { num_rebased: 3 });
    assert_eq!(action, TransactionAction::ReadWorkingCopyCommits { rebased: Some(3) });
    let (coordinator, action) = coordinator.step(TransactionEvent::WorkingCopyCommits {
        old_commit: Some(tcommit(1, 10)),
        new_commit: Some(tcommit(2, 11)),
    });
    assert_eq!(action, TransactionAction::Commit);
    let (coordinator, action) =
        coordinator.step(TransactionEvent::Committed { operation_id: top_id(5) });
    assert_eq!(action, TransactionAction::ReportRepoChanges);
    let (coordinator, action) = coordinator.step(TransactionEvent::ChangesReported);
    assert_eq!(
        action,
        TransactionAction::UpdateWorkingCopy(WorkingCopyUpdate::CheckOut {
            operation_id: top_id(5),
            old_tree_id: Some(TreeId::new(vec![10; 8])),
            new_commit: tcommit(2, 11),
        })
    );
    assert!(!coordinator.is_finished());
    let (coordinator, action) = coordinator
        .step(TransactionEvent::WorkingCopyUpdated { stats: Some(stats(1, 2, 3, 0)) });
    assert_eq!(
        action,
        TransactionAction::Finish {
            operation_id: top_id(5),
            working_copy: Some(WorkingCopyReport {
                record: WorkingCopyRecord {
                    operation_id: top_id(5),
                    tree_id: TreeId::new(vec![11; 8]),
                },
                new_commit: tcommit(2, 11),
                moved: true,
                stats: Some(stats(1, 2, 3, 0)),
            }),
            warn_missing_identity: false,
        }
    );
    assert!(coordinator.is_finished());
}

#[test]
fn transaction_exports_to_git_before_commit() {
    let coordinator = TransactionCoordinator::new(options(false, true, false));
    let (coordinator, _) = coordinator.step(TransactionEvent::Start { has_changes: true });
    let (coordinator, action) = coordinator.step(TransactionEvent::Rebased { num_rebased: 0 });
    assert_eq!(action, TransactionAction::ReadWorkingCopyCommits { rebased: None });
    let (coordinator, action) = coordinator.step(TransactionEvent::WorkingCopyCommits {
        old_commit: Some(tcommit(1, 10)),
        new_commit: Some(tcommit(2, 11)),
    });
    assert_eq!(action, TransactionAction::ExportToGit { reset_head_to: Some(tcommit(2, 11)) });
    let (coordinator, action) = coordinator.step(TransactionEvent::GitExported);
    assert_eq!(action, TransactionAction::Commit);
    let (coordinator, action) =
        coordinator.step(TransactionEvent::Committed { operation_id: top_id(5) });
    assert_eq!(action, TransactionAction::ReportRepoChanges);
    // The session may not update the working copy: it is left alone.
    let (coordinator, action) = coordinator.step(TransactionEvent::ChangesReported);
    assert_eq!(
        action,
        TransactionAction::Finish {
            operation_id: top_id(5),
            working_copy: None,
            warn_missing_identity: true,
        }
    );
    assert!(coordinator.is_finished());
}

#[test]
fn deleted_workspace_is_not_updated() {
    let coordinator = TransactionCoordinator::new(options(true, false, true));
    let (coordinator, _) = coordinator.step(TransactionEvent::Start { has_changes: true });
    let (coordinator, _) = coordinator.step(TransactionEvent::Rebased { num_rebased: 0 });
    let (coordinator, _) = coordinator.step(TransactionEvent::WorkingCopyCommits {
        old_commit: Some(tcommit(1, 10)),
        new_commit: None,
    });
    let (coordinator, _) =
        coordinator.step(TransactionEvent::Committed { operation_id: top_id(5) });
    let (_, action) = coordinator.step(TransactionEvent::ChangesReported);
    assert_eq!(
        action,
        TransactionAction::Finish {
            operation_id: top_id(5),
            working_copy: None,
            warn_missing_identity: false,
        }
    );
}

#[test]
fn same_tree_only_records_operation() {
    let coordinator = TransactionCoordinator::new(options(true, false, true));
    let (coordinator, _) = coordinator.step(TransactionEvent::Start { has_changes: true });
    let (coordinator, _) = coordinator.step(TransactionEvent::Rebased { num_rebased: 0 });
    let (coordinator, _) = coordinator.step(TransactionEvent::WorkingCopyCommits {
        old_commit: Some(tcommit(1, 10)),
        new_commit: Some(tcommit(1, 10)),
    });
    let (coordinator, _) =
        coordinator.step(TransactionEvent::Committed { operation_id: top_id(5) });
    let (coordinator, action) = coordinator.step(TransactionEvent::ChangesReported);
    assert_eq!(
        action,
        TransactionAction::UpdateWorkingCopy(WorkingCopyUpdate::RecordOperation {
            operation_id: top_id(5)
        })
    );
    let (_, action) = coordinator.step(TransactionEvent::WorkingCopyUpdated { stats: None });
    assert_eq!(
        action,
        TransactionAction::Finish {
            operation_id: top_id(5),
            working_copy: Some(WorkingCopyReport {
                record: WorkingCopyRecord {
                    operation_id: top_id(5),
                    tree_id: TreeId::new(vec![10; 8]),
                },
                new_commit: tcommit(1, 10),
                moved: false,
                stats: None,
            }),
            warn_missing_identity: false,
        }
    );
}

#[test]
fn failed_checkout_after_commit_is_recoverable() {
    let coordinator = TransactionCoordinator::new(options(true, false, true));
    let (coordinator, _) = coordinator.step(TransactionEvent::Start { has_changes: true });
    let (coordinator, _) = coordinator.step(TransactionEvent::Rebased { num_rebased: 0 });
    let (coordinator, _) = coordinator.step(TransactionEvent::WorkingCopyCommits {
        old_commit: None,
        new_commit: Some(tcommit(2, 11)),
    });
    let (coordinator, _) =
        coordinator.step(TransactionEvent::Committed { operation_id: top_id(5) });
    let (coordinator, action) = coordinator.step(TransactionEvent::ChangesReported);
    assert_eq!(
        action,
        TransactionAction::UpdateWorkingCopy(WorkingCopyUpdate::CheckOut {
            operation_id: top_id(5),
            old_tree_id: None,
            new_commit: tcommit(2, 11),
        })
    );
    let cause = ErrorChain { message: "disk full".to_string(), sources: vec!["io".to_string()] };
    let (coordinator, action) =
        coordinator.step(TransactionEvent::WorkingCopyUpdateFailed { cause: cause.clone() });
    assert!(coordinator.is_finished());
    let expected = TransactionError::CheckoutFailed {
        operation_id: top_id(5),
        commit_id: CommitId::new(vec![2; 8]),
        cause: cause.clone(),
    };
    assert_eq!(action, TransactionAction::Fail(expected));
    let error = TransactionError::CheckoutFailed {
        operation_id: top_id(5),
        commit_id: CommitId::new(vec![2; 8]),
        cause,
    };
    assert!(error.is_recoverable());
    assert_eq!(
        error.into_command_error(),
        CommandError::InternalError(ErrorChain {
            message: "Failed to check out commit 0202020202020202".to_string(),
            sources: vec!["disk full".to_string(), "io".to_string()],
        })
    );
    assert!(!TransactionError::UnexpectedEvent.is_recoverable());
    assert_eq!(
        TransactionError::UnexpectedEvent.into_command_error(),
        CommandError::InternalError(ErrorChain {
            message: "unexpected event".to_string(),
            sources: vec![],
        })
    );
}

#[test]
fn update_working_copy_checks_out_only_other_trees() {
    let op = top_id(3);
    let old = tcommit(1, 10);
    assert_eq!(
        update_working_copy(&op, Some(&old), &tcommit(2, 10)),
        WorkingCopyUpdate::RecordOperation { operation_id: top_id(3) }
    );
    assert_eq!(
        update_working_copy(&op, Some(&old), &tcommit(2, 12)),
        WorkingCopyUpdate::CheckOut {
            operation_id: top_id(3),
            old_tree_id: Some(TreeId::new(vec![10; 8])),
            new_commit: tcommit(2, 12),
        }
    );
    assert_eq!(
        update_working_copy(&op, None, &tcommit(2, 12)),
        WorkingCopyUpdate::CheckOut {
            operation_id: top_id(3),
            old_tree_id: None,
            new_commit: tcommit(2, 12),
        }
    );
    assert!(working_copy_moved(Some(&old), &tcommit(2, 10)));
    assert!(!working_copy_moved(Some(&old), &tcommit(1, 12)));
    assert!(working_copy_moved(None, &old));
}

#[test]
fn checkout_stats_are_reported_in_words() {
    let id = CommitId::new(vec![0xab; 8]);
    assert_eq!(checkout_stats_lines(&stats(0, 0, 0, 0), &id), Vec::<OutputLine>::new());
    assert_eq!(
        checkout_stats_lines(&stats(12, 3, 0, 0), &id),
        vec![OutputLine {
            stream: OutputStream::Stderr,
            text: "Added 3 files, modified 12 files, removed 0 files\n".to_string(),
        }]
    );
    assert_eq!(
        checkout_stats_lines(&stats(0, 0, 1, 205), &id),
        vec![
            OutputLine {
                stream: OutputStream::Stderr,
                text: "Added 0 files, modified 0 files, removed 1 files\n".to_string(),
            },
            OutputLine {
                stream: OutputStream::Warning,
                text: "205 of those updates were skipped because there were conflicting changes in the working copy.\n".to_string(),
            },
            OutputLine {
                stream: OutputStream::Hint,
                text: "Hint: Inspect the changes compared to the intended target with `jj diff --from abababababab`.\nDiscard the conflicting changes with `jj restore --from abababababab`.\n".to_string(),
            },
        ]
    );
    let lines = checkout_stats_lines(&stats(0, 0, 0, 4294967295), &id);
    assert_eq!(lines.len(), 2);
    assert_eq!(
        lines[0].text,
        "4294967295 of those updates were skipped because there were conflicting changes in the working copy.\n"
    );
}

#[test]
fn commit_options_follow_session_and_identity() {
    let args = GlobalArgs {
        repository: None,
        ignore_working_copy: false,
        at_operation: "@".to_string(),
        verbose: false,
    };
    let helper = WorkspaceCommandHelper::new(&args, true);
    assert_eq!(CommitOptions::new(&helper, "Some One", "someone@example.com"), options(true, true, true));
    assert_eq!(CommitOptions::new(&helper, "", "someone@example.com"), options(true, true, false));
    assert_eq!(CommitOptions::new(&helper, "Some One", ""), options(true, true, false));
}
