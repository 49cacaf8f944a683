use jj_session::command_error::{CommandError, ErrorChain};
use jj_session::conversions::{
    command_error_from, map_workspace_load_error, ErrorOrigin, GitImportErrorKind,
    RevsetParseSuggestion, WorkspaceInitErrorKind, WorkspaceLoadErrorKind,
};

fn chain(message: &str, sources: &[&str]) -> ErrorChain {
    ErrorChain {
        message: message.to_string(),
        sources: sources.iter().map(|s| s.to_string()).collect(),
    }
}

fn user(err: ErrorChain, hint: Option<&str>) -> CommandError {
    CommandError::UserError { err, hint: hint.map(|h| h.to_string()) }
}

fn internal(err: ErrorChain) -> CommandError {
    CommandError::InternalError(err)
}

#[test]
fn broken_pipe_is_not_an_error_of_the_user() {
    assert_eq!(
        command_error_from(ErrorOrigin::Io { broken_pipe: true }, chain("pipe", &[])),
        CommandError::BrokenPipe
    );
    assert_eq!(
        command_error_from(ErrorOrigin::Io { broken_pipe: false }, chain("denied", &["os"])),
        user(chain("denied", &["os"]), None)
    );
}

#[test]
fn config_error_keeps_its_message() {
    assert_eq!(
        command_error_from(ErrorOrigin::Config, chain("bad key", &["ignored"])),
        CommandError::ConfigError("bad key".to_string())
    );
}

#[test]
fn internal_errors_get_a_message() {
    let cases = vec![
        (ErrorOrigin::RewriteRootCommit, "Attempted to rewrite the root commit"),
        (ErrorOrigin::EditCommit, "Failed to edit a commit"),
        (ErrorOrigin::CheckOutCommit, "Failed to check out a commit"),
        (ErrorOrigin::Backend, "Unexpected error from backend"),
        (ErrorOrigin::Snapshot { new_file_too_large: false }, "Failed to snapshot the working copy"),
        (ErrorOrigin::TreeMerge, "Merge failed"),
        (ErrorOrigin::OpStore, "Failed to load an operation"),
        (ErrorOrigin::RepoLoader, "Failed to load the repo"),
        (ErrorOrigin::Reset, "Failed to reset the working copy"),
        (ErrorOrigin::GitExport, "Failed to export refs to underlying Git repo"),
        (ErrorOrigin::GitConfigParse, "Failed to parse Git config"),
        (ErrorOrigin::WorkingCopyState, "Failed to access working copy state"),
    ];
    for (origin, message) in cases {
        assert_eq!(
            command_error_from(origin, chain("cause", &["root"])),
            internal(chain(message, &["cause", "root"]))
        );
    }
}

#[test]
fn user_errors_get_a_message() {
    let cases = vec![
        (ErrorOrigin::DiffEdit, "Failed to edit diff"),
        (ErrorOrigin::DiffGenerate, "Failed to generate diff"),
        (ErrorOrigin::ConflictResolve, "Failed to resolve conflicts"),
        (ErrorOrigin::Git, "Git operation failed"),
    ];
    for (origin, message) in cases {
        assert_eq!(
            command_error_from(origin, chain("cause", &["root"])),
            user(chain(message, &["cause", "root"]), None)
        );
    }
    for origin in [
        ErrorOrigin::OpsetResolution,
        ErrorOrigin::GitRemoteManagement,
        ErrorOrigin::RevsetEvaluation,
        ErrorOrigin::FsPathParse,
    ] {
        assert_eq!(
            command_error_from(origin, chain("cause", &["root"])),
            user(chain("cause", &["root"]), None)
        );
    }
}

#[test]
fn too_large_file_comes_with_a_hint() {
    assert_eq!(
        command_error_from(ErrorOrigin::Snapshot { new_file_too_large: true }, chain("big", &[])),
        user(
            chain("Failed to snapshot the working copy", &["big"]),
            Some("Increase the value of the `snapshot.max-new-file-size` config option if you\nwant this file to be snapshotted. Otherwise add it to your `.gitignore` file.")
        )
    );
}

#[test]
fn workspace_init_errors_are_sorted() {
    let err = || chain("cause", &["root"]);
    let from = |kind| command_error_from(ErrorOrigin::WorkspaceInit(kind), err());
    assert_eq!(
        from(WorkspaceInitErrorKind::DestinationExists),
        user(chain("The target repo already exists", &[]), None)
    );
    assert_eq!(
        from(WorkspaceInitErrorKind::NonUnicodePath),
        user(chain("The target repo path contains non-unicode characters", &[]), None)
    );
    assert_eq!(
        from(WorkspaceInitErrorKind::CheckOutCommit),
        internal(chain("Failed to check out the initial commit", &["cause", "root"]))
    );
    assert_eq!(
        from(WorkspaceInitErrorKind::Path),
        internal(chain("Failed to access the repository", &["cause", "root"]))
    );
    assert_eq!(
        from(WorkspaceInitErrorKind::PathNotFound("/tmp/x".to_string())),
        user(chain("/tmp/x doesn't exist", &[]), None)
    );
    assert_eq!(
        from(WorkspaceInitErrorKind::Backend),
        user(chain("Failed to access the repository", &["cause", "root"]), None)
    );
    assert_eq!(
        from(WorkspaceInitErrorKind::WorkingCopyState),
        internal(chain("Failed to access the repository", &["cause", "root"]))
    );
    assert_eq!(from(WorkspaceInitErrorKind::SignInitUnknownBackend), user(err(), None));
    assert_eq!(from(WorkspaceInitErrorKind::SignInit), internal(err()));
}

#[test]
fn git_import_errors_hint_at_the_cause() {
    let shallow = "Is this Git repository a shallow or partial clone (cloned with the --depth or --filter argument)?\njj currently does not support shallow/partial clones. To use jj with this repository, try\nunshallowing the repository (https://stackoverflow.com/q/6802145) or re-cloning with the full\nrepository contents.";
    let message = "Failed to import refs from underlying Git repo: missing";
    let from = |kind| command_error_from(ErrorOrigin::GitImport(kind), chain("missing", &["x"]));
    assert_eq!(
        from(GitImportErrorKind::MissingHeadTarget),
        user(chain(message, &[]), Some(shallow))
    );
    assert_eq!(
        from(GitImportErrorKind::MissingRefAncestor),
        user(chain(message, &[]), Some(shallow))
    );
    assert_eq!(
        from(GitImportErrorKind::RemoteReservedForLocalGitRepo),
        user(chain(message, &[]), Some("Run `jj git remote rename` to give different name."))
    );
    assert_eq!(from(GitImportErrorKind::InternalBackend), user(chain(message, &[]), None));
    assert_eq!(from(GitImportErrorKind::InternalGitError), user(chain(message, &[]), None));
    assert_eq!(from(GitImportErrorKind::UnexpectedBackend), user(chain(message, &[]), None));
}

#[test]
fn revset_parse_error_lists_its_origins() {
    let err = chain("Alias \"x\" cannot be expanded", &["Syntax error", "unexpected token"]);
    assert_eq!(
        command_error_from(ErrorOrigin::RevsetParse(RevsetParseSuggestion::Nothing), err),
        user(
            chain(
                "Failed to parse revset: Alias \"x\" cannot be expanded\nSyntax error\nunexpected token",
                &[]
            ),
            None
        )
    );
    let suggestion = RevsetParseSuggestion::SimilarOperator {
        similar_op: "-".to_string(),
        description: "parents".to_string(),
    };
    assert_eq!(
        command_error_from(ErrorOrigin::RevsetParse(suggestion), chain("bad", &[])),
        user(chain("Failed to parse revset: bad", &[]), Some("Did you mean '-' for parents?"))
    );
    let suggestion =
        RevsetParseSuggestion::SimilarFunctions(vec!["heads".to_string(), "head".to_string()]);
    assert_eq!(
        command_error_from(ErrorOrigin::RevsetParse(suggestion), chain("bad", &[])),
        user(
            chain("Failed to parse revset: bad", &[]),
            Some("Did you mean \"heads\", \"head\"?")
        )
    );
    assert_eq!(
        command_error_from(
            ErrorOrigin::RevsetParse(RevsetParseSuggestion::SimilarFunctions(vec![])),
            chain("bad", &[])
        ),
        user(chain("Failed to parse revset: bad", &[]), None)
    );
}

#[test]
fn revset_resolution_error_offers_similar_names() {
    assert_eq!(
        command_error_from(
            ErrorOrigin::RevsetResolution { candidates: vec!["main".to_string()] },
            chain("Revision \"mian\" doesn't exist", &[])
        ),
        user(chain("Revision \"mian\" doesn't exist", &[]), Some("Did you mean \"main\"?"))
    );
    assert_eq!(
        command_error_from(
            ErrorOrigin::RevsetResolution { candidates: vec![] },
            chain("Empty string", &["x"])
        ),
        user(chain("Empty string", &["x"]), None)
    );
}

#[test]
fn template_parse_error_lists_its_origins() {
    assert_eq!(
        command_error_from(ErrorOrigin::TemplateParse, chain("outer", &["inner"])),
        user(chain("Failed to parse template: outer\ninner", &[]), None)
    );
}

#[test]
fn workspace_load_errors_are_sorted() {
    let err = || chain("cause", &["root"]);
    assert_eq!(
        map_workspace_load_error(
            WorkspaceLoadErrorKind::NoWorkspaceHere { is_git_repo: false },
            err(),
            None
        ),
        user(chain("There is no jj repo in \".\"", &[]), None)
    );
    assert_eq!(
        map_workspace_load_error(
            WorkspaceLoadErrorKind::NoWorkspaceHere { is_git_repo: true },
            err(),
            Some("../other")
        ),
        user(
            chain("There is no jj repo in \"../other\"", &[]),
            Some("It looks like this is a git repo. You can create a jj repo backed by it by running this:\njj git init --git-repo=.")
        )
    );
    assert_eq!(
        map_workspace_load_error(
            WorkspaceLoadErrorKind::RepoDoesNotExist("/r/.jj/repo".to_string()),
            err(),
            None
        ),
        user(chain("The repository directory at /r/.jj/repo is missing. Was it moved?", &[]), None)
    );
    assert_eq!(
        map_workspace_load_error(WorkspaceLoadErrorKind::StoreUnsupportedType, err(), None),
        internal(chain(
            "This version of the jj binary doesn't support this type of repo",
            &["cause", "root"]
        ))
    );
    for kind in [WorkspaceLoadErrorKind::StoreReadError, WorkspaceLoadErrorKind::StoreBackend] {
        assert_eq!(
            map_workspace_load_error(kind, err(), None),
            internal(chain("The repository appears broken or inaccessible", &["cause", "root"]))
        );
    }
    assert_eq!(
        map_workspace_load_error(WorkspaceLoadErrorKind::StoreSigningUnknownBackend, err(), None),
        user(err(), None)
    );
    assert_eq!(
        map_workspace_load_error(WorkspaceLoadErrorKind::StoreOther, err(), None),
        internal(err())
    );
    for kind in [WorkspaceLoadErrorKind::NonUnicodePath, WorkspaceLoadErrorKind::Path] {
        assert_eq!(map_workspace_load_error(kind, err(), Some("x")), user(err(), None));
    }
}
