use jj_session::git_import::{plan_git_head_import, GitHeadImport};
use jj_session::object_id::CommitId;

fn gid(tag: u8) -> CommitId {
    CommitId::new(vec![tag; 8])
}

#[test]
fn unchanged_git_head_needs_nothing() {
    assert_eq!(
        plan_git_head_import(false, Some(gid(1)), Some(gid(2)), true),
        GitHeadImport::Nothing
    );
}

#[test]
fn new_git_head_resets_the_working_copy() {
    assert_eq!(
        plan_git_head_import(true, Some(gid(1)), Some(gid(2)), true),
        GitHeadImport::ResetToHead { abandon: Some(gid(2)), new_head: gid(1), announce: true }
    );
    assert_eq!(
        plan_git_head_import(true, Some(gid(1)), None, false),
        GitHeadImport::ResetToHead { abandon: None, new_head: gid(1), announce: false }
    );
}

#[test]
fn deleted_git_head_finishes_the_transaction() {
    assert_eq!(
        plan_git_head_import(true, None, Some(gid(2)), true),
        GitHeadImport::FinishTransaction
    );
}
