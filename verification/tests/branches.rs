use jj_session::branches::{
    trackable_remote_branches, trackable_remote_branches_lines, BranchTarget, RemoteRef,
};
use jj_session::command_error::{OutputLine, OutputStream};

fn remote(name: &str, tracking: bool) -> RemoteRef {
    RemoteRef { remote: name.to_string(), tracking }
}

fn branch(name: &str, local_present: bool, remote_refs: Vec<RemoteRef>) -> BranchTarget {
    BranchTarget { name: name.to_string(), local_present, remote_refs }
}

#[test]
fn untracked_remotes_of_local_branches_are_trackable() {
    let branches = vec![
        branch("main", true, vec![remote("origin", true), remote("fork", false)]),
        branch("gone", false, vec![remote("origin", false)]),
        branch("dev", true, vec![remote("a", false), remote("b", false)]),
        branch("local", true, vec![]),
    ];
    assert_eq!(trackable_remote_branches(&branches), vec!["main@fork", "dev@a", "dev@b"]);
    assert_eq!(trackable_remote_branches(&vec![]), Vec::<String>::new());
}

#[test]
fn trackable_branches_are_listed_with_a_hint() {
    assert_eq!(trackable_remote_branches_lines(&vec![]), Vec::<OutputLine>::new());
    let names = vec!["main@fork".to_string(), "dev@a".to_string()];
    assert_eq!(
        trackable_remote_branches_lines(&names),
        vec![
            OutputLine {
                stream: OutputStream::Hint,
                text: "The following remote branches aren't associated with the existing local branches:\n".to_string(),
            },
            OutputLine { stream: OutputStream::Stderr, text: "  main@fork\n".to_string() },
            OutputLine { stream: OutputStream::Stderr, text: "  dev@a\n".to_string() },
            OutputLine {
                stream: OutputStream::Hint,
                text: "Hint: Run `jj branch track main@fork dev@a` to keep local branches updated on future pulls.\n".to_string(),
            },
        ]
    );
}
