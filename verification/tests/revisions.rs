use jj_session::command_error::{CommandError, ErrorChain};
use jj_session::commit::Commit;
use jj_session::object_id::{ChangeId, CommitId, TreeId};
use jj_session::revisions::{
    check_immutable_heads_declaration, check_rewritable, resolve_all_revs, resolve_multiple_nonempty_revsets,
    resolve_multiple_nonempty_revsets_default_single, resolve_revset_default_single,
    resolve_single_rev, revset_of_argument, with_all_prefix_hint, RevisionSet, SummarizedCommit,
};

fn rcommit(id: u8) -> Commit {
    Commit::new(CommitId::new(vec![id; 8]), ChangeId::new(vec![id; 8]), TreeId::new(vec![id; 8]))
}

fn rcommit_of_change(id: u8, change: u8) -> Commit {
    Commit::new(
        CommitId::new(vec![id; 8]),
        ChangeId::new(vec![change; 8]),
        TreeId::new(vec![id; 8]),
    )
}

fn commits(ids: &[u8]) -> Vec<Commit> {
    ids.iter().map(|i| rcommit(*i)).collect()
}

fn user(message: &str, hint: Option<&str>) -> CommandError {
    CommandError::UserError {
        err: ErrorChain { message: message.to_string(), sources: vec![] },
        hint: hint.map(|h| h.to_string()),
    }
}

fn candidate(id: u8, change: u8) -> SummarizedCommit {
    SummarizedCommit { commit: rcommit_of_change(id, change), summary: format!("commit {id}") }
}

#[test]
fn revision_set_keeps_first_occurrence() {
    let mut set = RevisionSet::new();
    assert_eq!(set.len(), 0);
    assert!(set.insert(rcommit(1)));
    assert!(set.insert(rcommit(2)));
    assert!(!set.insert(rcommit(1)));
    set.extend(&commits(&[3, 2, 4, 3]));
    assert_eq!(set.len(), 4);
    assert_eq!(set.into_commits(), commits(&[1, 2, 3, 4]));
}

#[test]
fn revsets_are_collected_without_repetition() {
    let resolved = vec![commits(&[1, 2]), commits(&[2, 3]), commits(&[1])];
    assert_eq!(resolve_multiple_nonempty_revsets(&resolved), Ok(commits(&[1, 2, 3])));
    assert_eq!(resolve_multiple_nonempty_revsets(&vec![]), Ok(vec![]));
}

#[test]
fn empty_revset_is_refused() {
    let resolved = vec![commits(&[1, 2]), commits(&[]), commits(&[3])];
    assert_eq!(
        resolve_multiple_nonempty_revsets(&resolved),
        Err(user("Empty revision set", None))
    );
    assert_eq!(
        resolve_multiple_nonempty_revsets_default_single(&resolved),
        Err(user("Empty revision set", None))
    );
}

#[test]
fn commit_named_twice_is_refused() {
    let resolved = vec![commits(&[1, 2]), commits(&[3, 2])];
    assert_eq!(
        resolve_multiple_nonempty_revsets_default_single(&resolved),
        Err(user("More than one revset resolved to revision 020202020202", None))
    );
    let resolved = vec![commits(&[1, 1])];
    assert_eq!(
        resolve_multiple_nonempty_revsets_default_single(&resolved),
        Err(user("More than one revset resolved to revision 010101010101", None))
    );
    // The first fault in the order of the arguments is reported.
    let resolved = vec![commits(&[1]), commits(&[1]), commits(&[])];
    assert_eq!(
        resolve_multiple_nonempty_revsets_default_single(&resolved),
        Err(user("More than one revset resolved to revision 010101010101", None))
    );
    let resolved = vec![commits(&[1, 2]), commits(&[3])];
    assert_eq!(
        resolve_multiple_nonempty_revsets_default_single(&resolved),
        Ok(commits(&[1, 2, 3]))
    );
}

#[test]
fn root_commit_cannot_be_merged() {
    let root = CommitId::new(vec![0; 8]);
    assert_eq!(
        resolve_all_revs(&vec![commits(&[1]), commits(&[0])], &root),
        Err(user("Cannot merge with root revision", None))
    );
    assert_eq!(resolve_all_revs(&vec![commits(&[0])], &root), Ok(commits(&[0])));
    assert_eq!(resolve_all_revs(&vec![commits(&[1, 2])], &root), Ok(commits(&[1, 2])));
    assert_eq!(
        resolve_all_revs(&vec![commits(&[1]), commits(&[1])], &root),
        Err(user("More than one revset resolved to revision 010101010101", None))
    );
    assert_eq!(resolve_all_revs(&vec![], &root), Ok(vec![]));
}

#[test]
fn single_revision_is_returned() {
    assert_eq!(resolve_single_rev("@-", &vec![candidate(1, 1)], None), Ok(rcommit(1)));
}

#[test]
fn no_revision_is_an_error() {
    assert_eq!(
        resolve_single_rev("none()", &vec![], None),
        Err(user("Revset \"none()\" didn't resolve to any revisions", None))
    );
}

#[test]
fn several_revisions_are_listed_in_the_hint() {
    let candidates = vec![candidate(1, 1), candidate(2, 2)];
    assert_eq!(
        resolve_single_rev("a|b", &candidates, None),
        Err(user(
            "Revset \"a|b\" resolved to more than one revision",
            Some("The revset \"a|b\" resolved to these revisions:\ncommit 1\ncommit 2")
        ))
    );
}

#[test]
fn more_than_five_revisions_are_elided() {
    let candidates: Vec<SummarizedCommit> = (1..=6).map(|i| candidate(i, i)).collect();
    assert_eq!(
        resolve_single_rev("all()", &candidates, None),
        Err(user(
            "Revset \"all()\" resolved to more than one revision",
            Some("The revset \"all()\" resolved to these revisions:\ncommit 1\ncommit 2\ncommit 3\ncommit 4\ncommit 5\n...")
        ))
    );
    let candidates: Vec<SummarizedCommit> = (1..=5).map(|i| candidate(i, i)).collect();
    assert_eq!(
        resolve_single_rev("all()", &candidates, None),
        Err(user(
            "Revset \"all()\" resolved to more than one revision",
            Some("The revset \"all()\" resolved to these revisions:\ncommit 1\ncommit 2\ncommit 3\ncommit 4\ncommit 5")
        ))
    );
}

#[test]
fn divergent_change_gets_its_own_hint() {
    let candidates = vec![candidate(1, 9), candidate(2, 9)];
    assert_eq!(
        resolve_single_rev("xyz", &candidates, Some("xyz")),
        Err(user(
            "Revset \"xyz\" resolved to more than one revision",
            Some("The revset \"xyz\" resolved to these revisions:\ncommit 1\ncommit 2\nSome of these commits have the same change id. Abandon one of them with `jj abandon -r <REVISION>`.")
        ))
    );
}

#[test]
fn conflicted_branch_gets_its_own_hint() {
    let candidates = vec![candidate(1, 1), candidate(2, 2)];
    assert_eq!(
        resolve_single_rev("main", &candidates, Some("main")),
        Err(user(
            "Revset \"main\" resolved to more than one revision",
            Some("Branch main resolved to multiple revisions because it's conflicted.\nIt resolved to these revisions:\ncommit 1\ncommit 2\nSet which revision the branch points to with `jj branch set main -r <REVISION>`.")
        ))
    );
}

#[test]
fn all_prefix_allows_any_number_of_revisions() {
    assert_eq!(revset_of_argument("all:a|b"), "a|b");
    assert_eq!(revset_of_argument("a|b"), "a|b");
    assert_eq!(revset_of_argument("all"), "all");
    assert_eq!(revset_of_argument("all:"), "");
    let candidates = vec![candidate(1, 1), candidate(2, 2)];
    assert_eq!(
        resolve_revset_default_single("all:a|b", &candidates, None),
        Ok(vec![rcommit(1), rcommit(2)])
    );
    assert_eq!(resolve_revset_default_single("all:none()", &vec![], None), Ok(vec![]));
    assert_eq!(
        resolve_revset_default_single("a", &vec![candidate(1, 1)], None),
        Ok(vec![rcommit(1)])
    );
}

#[test]
fn without_all_prefix_the_hint_tells_of_it() {
    assert_eq!(
        resolve_revset_default_single("none()", &vec![], None),
        Err(user(
            "Revset \"none()\" didn't resolve to any revisions",
            Some("Prefix the expression with 'all' to allow any number of revisions (i.e. 'all:none()').")
        ))
    );
    let candidates = vec![candidate(1, 1), candidate(2, 2)];
    assert_eq!(
        resolve_revset_default_single("a|b", &candidates, None),
        Err(user(
            "Revset \"a|b\" resolved to more than one revision",
            Some("The revset \"a|b\" resolved to these revisions:\ncommit 1\ncommit 2\nPrefix the expression with 'all' to allow any number of revisions (i.e. 'all:a|b').")
        ))
    );
    assert_eq!(
        with_all_prefix_hint(CommandError::BrokenPipe, "x"),
        CommandError::BrokenPipe
    );
}

#[test]
fn immutable_heads_must_take_no_arguments() {
    assert_eq!(check_immutable_heads_declaration(0), Ok(()));
    assert_eq!(
        check_immutable_heads_declaration(2),
        Err(user(
            "The `revset-aliases.immutable_heads()` function must be declared without arguments.",
            None
        ))
    );
}

#[test]
fn immutable_commits_are_not_rewritten() {
    let root = CommitId::new(vec![0; 8]);
    assert_eq!(check_rewritable(None, &root), Ok(()));
    assert_eq!(
        check_rewritable(Some(&CommitId::new(vec![0; 8])), &root),
        Err(user("The root commit 000000000000 is immutable", None))
    );
    assert_eq!(
        check_rewritable(Some(&CommitId::new(vec![0xa1; 8])), &root),
        Err(user(
            "Commit a1a1a1a1a1a1 is immutable",
            Some("Configure the set of immutable commits via `revset-aliases.immutable_heads()`.")
        ))
    );
}
