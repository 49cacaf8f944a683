//! From the errors of the repository, the working copy and the tools to
//! the errors of a command.
//!
//! An error from elsewhere arrives as what it is, an [`ErrorOrigin`], and as
//! its message with the messages of its sources, an [`ErrorChain`]. Whether
//! it becomes the user's error or an internal one, under which message and
//! with which hint, is decided here.

use crate::command_error::{
    format_similarity_hint, internal_error, internal_error_with_message, spec_similarity_hint,
    user_error, user_error_with_hint, user_error_with_hint_opt, user_error_with_message,
    user_error_with_message_and_hint, CommandError, CommandErrorView, ErrorChain, ErrorChainView,
};
use crate::text::{glue, join, optional_string_view, spec_join, strings_view};
use vstd::prelude::*;
use vstd::string::*;

verus! {

/// What went wrong while a workspace was made.
#[derive(Debug, PartialEq, Eq)]
pub enum WorkspaceInitErrorKind {
    DestinationExists,
    NonUnicodePath,
    CheckOutCommit,
    Path,
    /// The path that was not found, as it is shown.
    PathNotFound(String),
    Backend,
    WorkingCopyState,
    /// The signing backend that was asked for is not known.
    SignInitUnknownBackend,
    SignInit,
}

/// What went wrong while refs were imported from Git.
#[derive(Debug, PartialEq, Eq, Structural, Clone, Copy)]
pub enum GitImportErrorKind {
    MissingHeadTarget,
    MissingRefAncestor,
    RemoteReservedForLocalGitRepo,
    InternalBackend,
    InternalGitError,
    UnexpectedBackend,
}

/// What the parser of revsets offers in place of what it refused.
#[derive(Debug, PartialEq, Eq)]
pub enum RevsetParseSuggestion {
    /// Another operator that is written alike.
    SimilarOperator { similar_op: String, description: String },
    /// The functions whose names come close.
    SimilarFunctions(Vec<String>),
    Nothing,
}

/// Where an error comes from.
#[derive(Debug, PartialEq, Eq)]
pub enum ErrorOrigin {
    /// Input or output failed; `broken_pipe` says that the reader of the
    /// output went away.
    Io { broken_pipe: bool },
    Config,
    RewriteRootCommit,
    EditCommit,
    CheckOutCommit,
    Backend,
    WorkspaceInit(WorkspaceInitErrorKind),
    OpsetResolution,
    /// The snapshot failed; `new_file_too_large` says that a new file is
    /// larger than the configured limit.
    Snapshot { new_file_too_large: bool },
    TreeMerge,
    OpStore,
    RepoLoader,
    Reset,
    DiffEdit,
    DiffGenerate,
    ConflictResolve,
    Git,
    GitImport(GitImportErrorKind),
    GitExport,
    GitRemoteManagement,
    RevsetEvaluation,
    /// A revset did not parse. The message of the error and of the errors
    /// it arose from are its chain; the suggestion is that of the error
    /// itself.
    RevsetParse(RevsetParseSuggestion),
    /// A revset did not resolve; the names that come close to one that
    /// was not found, if that is what failed.
    RevsetResolution { candidates: Vec<String> },
    TemplateParse,
    FsPathParse,
    GitConfigParse,
    WorkingCopyState,
}

/// The hint for a file that is too large to be snapshotted.
pub open spec fn too_large_hint() -> Seq<char> {
    "Increase the value of the `snapshot.max-new-file-size` config option if you
want this file to be snapshotted. Otherwise add it to your `.gitignore` file."@
}

/// The hint for a Git repository that lacks part of its history.
pub open spec fn shallow_clone_hint() -> Seq<char> {
    "Is this Git repository a shallow or partial clone (cloned with the --depth or --filter argument)?
jj currently does not support shallow/partial clones. To use jj with this repository, try
unshallowing the repository (https://stackoverflow.com/q/6802145) or re-cloning with the full
repository contents."@
}

/// The hint for a remote whose name is reserved.
pub open spec fn reserved_remote_hint() -> Seq<char> {
    "Run `jj git remote rename` to give different name."@
}

/// An error of the user with a message of its own and no source.
pub open spec fn spec_plain_user_error(message: Seq<char>) -> CommandErrorView {
    CommandErrorView::UserError {
        err: ErrorChainView { message, sources: Seq::empty() },
        hint: None,
    }
}

/// An error of the user, as it came.
pub open spec fn spec_user(err: ErrorChainView) -> CommandErrorView {
    CommandErrorView::UserError { err, hint: None }
}

/// An error of the user under a message.
pub open spec fn spec_user_with(message: Seq<char>, err: ErrorChainView) -> CommandErrorView {
    CommandErrorView::UserError { err: err.wrapped(message), hint: None }
}

/// An internal error under a message.
pub open spec fn spec_internal_with(message: Seq<char>, err: ErrorChainView) -> CommandErrorView {
    CommandErrorView::InternalError(err.wrapped(message))
}

/// The error of a command for a failure to make a workspace.
pub open spec fn spec_from_workspace_init(
    kind: WorkspaceInitErrorKind,
    err: ErrorChainView,
) -> CommandErrorView {
    match kind {
        WorkspaceInitErrorKind::DestinationExists => spec_plain_user_error(
            "The target repo already exists"@,
        ),
        WorkspaceInitErrorKind::NonUnicodePath => spec_plain_user_error(
            "The target repo path contains non-unicode characters"@,
        ),
        WorkspaceInitErrorKind::CheckOutCommit => spec_internal_with(
            "Failed to check out the initial commit"@,
            err,
        ),
        WorkspaceInitErrorKind::Path => spec_internal_with("Failed to access the repository"@, err),
        WorkspaceInitErrorKind::PathNotFound(path) => spec_plain_user_error(
            path@ + " doesn't exist"@,
        ),
        WorkspaceInitErrorKind::Backend => spec_user_with("Failed to access the repository"@, err),
        WorkspaceInitErrorKind::WorkingCopyState => spec_internal_with(
            "Failed to access the repository"@,
            err,
        ),
        WorkspaceInitErrorKind::SignInitUnknownBackend => spec_user(err),
        WorkspaceInitErrorKind::SignInit => CommandErrorView::InternalError(err),
    }
}

/// The hint for a failure to import refs from Git.
pub open spec fn spec_git_import_hint(kind: GitImportErrorKind) -> Option<Seq<char>> {
    match kind {
        GitImportErrorKind::MissingHeadTarget | GitImportErrorKind::MissingRefAncestor => Some(
            shallow_clone_hint(),
        ),
        GitImportErrorKind::RemoteReservedForLocalGitRepo => Some(reserved_remote_hint()),
        _ => None,
    }
}

/// The hint for a revset that did not parse.
pub open spec fn spec_revset_parse_hint(suggestion: RevsetParseSuggestion) -> Option<Seq<char>> {
    match suggestion {
        RevsetParseSuggestion::SimilarOperator { similar_op, description } => Some(
            "Did you mean '"@ + similar_op@ + "' for "@ + description@ + "?"@,
        ),
        RevsetParseSuggestion::SimilarFunctions(candidates) => spec_similarity_hint(
            strings_view(candidates@),
        ),
        RevsetParseSuggestion::Nothing => None,
    }
}

/// The messages of an error and of its sources, one to a line.
pub open spec fn spec_chain_lines(err: ErrorChainView) -> Seq<char> {
    spec_join(seq![err.message] + err.sources, "\n"@)
}

/// What [`command_error_from`] returns.
pub open spec fn spec_command_error_from(origin: ErrorOrigin, err: ErrorChainView) -> CommandErrorView {
    match origin {
        ErrorOrigin::Io { broken_pipe } => if broken_pipe {
            CommandErrorView::BrokenPipe
        } else {
            spec_user(err)
        },
        ErrorOrigin::Config => CommandErrorView::ConfigError(err.message),
        ErrorOrigin::RewriteRootCommit => spec_internal_with(
            "Attempted to rewrite the root commit"@,
            err,
        ),
        ErrorOrigin::EditCommit => spec_internal_with("Failed to edit a commit"@, err),
        ErrorOrigin::CheckOutCommit => spec_internal_with("Failed to check out a commit"@, err),
        ErrorOrigin::Backend => spec_internal_with("Unexpected error from backend"@, err),
        ErrorOrigin::WorkspaceInit(kind) => spec_from_workspace_init(kind, err),
        ErrorOrigin::OpsetResolution => spec_user(err),
        ErrorOrigin::Snapshot { new_file_too_large } => if new_file_too_large {
            CommandErrorView::UserError {
                err: err.wrapped("Failed to snapshot the working copy"@),
                hint: Some(too_large_hint()),
            }
        } else {
            spec_internal_with("Failed to snapshot the working copy"@, err)
        },
        ErrorOrigin::TreeMerge => spec_internal_with("Merge failed"@, err),
        ErrorOrigin::OpStore => spec_internal_with("Failed to load an operation"@, err),
        ErrorOrigin::RepoLoader => spec_internal_with("Failed to load the repo"@, err),
        ErrorOrigin::Reset => spec_internal_with("Failed to reset the working copy"@, err),
        ErrorOrigin::DiffEdit => spec_user_with("Failed to edit diff"@, err),
        ErrorOrigin::DiffGenerate => spec_user_with("Failed to generate diff"@, err),
        ErrorOrigin::ConflictResolve => spec_user_with("Failed to resolve conflicts"@, err),
        ErrorOrigin::Git => spec_user_with("Git operation failed"@, err),
        ErrorOrigin::GitImport(kind) => CommandErrorView::UserError {
            err: ErrorChainView {
                message: "Failed to import refs from underlying Git repo: "@ + err.message,
                sources: Seq::empty(),
            },
            hint: spec_git_import_hint(kind),
        },
        ErrorOrigin::GitExport => spec_internal_with(
            "Failed to export refs to underlying Git repo"@,
            err,
        ),
        ErrorOrigin::GitRemoteManagement => spec_user(err),
        ErrorOrigin::RevsetEvaluation => spec_user(err),
        ErrorOrigin::RevsetParse(suggestion) => CommandErrorView::UserError {
            err: ErrorChainView {
                message: "Failed to parse revset: "@ + spec_chain_lines(err),
                sources: Seq::empty(),
            },
            hint: spec_revset_parse_hint(suggestion),
        },
        ErrorOrigin::RevsetResolution { candidates } => CommandErrorView::UserError {
            err,
            hint: spec_similarity_hint(strings_view(candidates@)),
        },
        ErrorOrigin::TemplateParse => spec_plain_user_error(
            "Failed to parse template: "@ + spec_chain_lines(err),
        ),
        ErrorOrigin::FsPathParse => spec_user(err),
        ErrorOrigin::GitConfigParse => spec_internal_with("Failed to parse Git config"@, err),
        ErrorOrigin::WorkingCopyState => spec_internal_with(
            "Failed to access working copy state"@,
            err,
        ),
    }
}

fn plain_user_error(message: String) -> (error: CommandError)
    ensures
        error@ == spec_plain_user_error(message@),
{
    let err = ErrorChain { message, sources: Vec::new() };
    assert(err@.sources =~= Seq::<Seq<char>>::empty());
    user_error(err)
}

/// The messages of an error and of its sources, one to a line.
fn chain_lines(err: &ErrorChain) -> (lines: String)
    ensures
        lines@ == spec_chain_lines(err@),
{
    let mut messages: Vec<String> = Vec::new();
    messages.push(err.message.clone());
    let mut i: usize = 0;
    while i < err.sources.len()
        invariant
            i <= err.sources.len(),
            messages.len() == i + 1,
            messages@[0]@ == err.message@,
            forall|j: int| 1 <= j <= i ==> (#[trigger] messages@[j])@ == err.sources@[j - 1]@,
        decreases err.sources.len() - i,
    {
        messages.push(err.sources[i].clone());
        i += 1;
    }
    assert(strings_view(messages@) =~= seq![err@.message] + err@.sources);
    join(&messages, "\n")
}

fn from_workspace_init(kind: WorkspaceInitErrorKind, err: ErrorChain) -> (error: CommandError)
    ensures
        error@ == spec_from_workspace_init(kind, err@),
{
    match kind {
        WorkspaceInitErrorKind::DestinationExists => plain_user_error(
            "The target repo already exists".to_owned(),
        ),
        WorkspaceInitErrorKind::NonUnicodePath => plain_user_error(
            "The target repo path contains non-unicode characters".to_owned(),
        ),
        WorkspaceInitErrorKind::CheckOutCommit => internal_error_with_message(
            "Failed to check out the initial commit",
            err,
        ),
        WorkspaceInitErrorKind::Path => internal_error_with_message(
            "Failed to access the repository",
            err,
        ),
        WorkspaceInitErrorKind::PathNotFound(path) => plain_user_error(
            glue(path.as_str(), " doesn't exist"),
        ),
        WorkspaceInitErrorKind::Backend => user_error_with_message(
            "Failed to access the repository",
            err,
        ),
        WorkspaceInitErrorKind::WorkingCopyState => internal_error_with_message(
            "Failed to access the repository",
            err,
        ),
        WorkspaceInitErrorKind::SignInitUnknownBackend => user_error(err),
        WorkspaceInitErrorKind::SignInit => internal_error(err),
    }
}

fn revset_parse_hint(suggestion: RevsetParseSuggestion) -> (hint: Option<String>)
    ensures
        optional_string_view(hint) == spec_revset_parse_hint(suggestion),
{
    match suggestion {
        RevsetParseSuggestion::SimilarOperator { similar_op, description } => {
            let mut hint = glue("Did you mean '", similar_op.as_str());
            hint.append("' for ");
            hint.append(description.as_str());
            hint.append("?");
            Some(hint)
        },
        RevsetParseSuggestion::SimilarFunctions(candidates) => format_similarity_hint(&candidates),
        RevsetParseSuggestion::Nothing => None,
    }
}

/// The error of a command for an error from elsewhere.
pub fn command_error_from(origin: ErrorOrigin, err: ErrorChain) -> (error: CommandError)
    ensures
        error@ == spec_command_error_from(origin, err@),
{
    match origin {
        ErrorOrigin::Io { broken_pipe } => {
            if broken_pipe {
                CommandError::BrokenPipe
            } else {
                user_error(err)
            }
        },
        ErrorOrigin::Config => CommandError::ConfigError(err.message),
        ErrorOrigin::RewriteRootCommit => internal_error_with_message(
            "Attempted to rewrite the root commit",
            err,
        ),
        ErrorOrigin::EditCommit => internal_error_with_message("Failed to edit a commit", err),
        ErrorOrigin::CheckOutCommit => internal_error_with_message(
            "Failed to check out a commit",
            err,
        ),
        ErrorOrigin::Backend => internal_error_with_message("Unexpected error from backend", err),
        ErrorOrigin::WorkspaceInit(kind) => from_workspace_init(kind, err),
        ErrorOrigin::OpsetResolution => user_error(err),
        ErrorOrigin::Snapshot { new_file_too_large } => {
            if new_file_too_large {
                user_error_with_message_and_hint(
                    "Failed to snapshot the working copy",
                    "Increase the value of the `snapshot.max-new-file-size` config option if you
want this file to be snapshotted. Otherwise add it to your `.gitignore` file.",
                    err,
                )
            } else {
                internal_error_with_message("Failed to snapshot the working copy", err)
            }
        },
        ErrorOrigin::TreeMerge => internal_error_with_message("Merge failed", err),
        ErrorOrigin::OpStore => internal_error_with_message("Failed to load an operation", err),
        ErrorOrigin::RepoLoader => internal_error_with_message("Failed to load the repo", err),
        ErrorOrigin::Reset => internal_error_with_message("Failed to reset the working copy", err),
        ErrorOrigin::DiffEdit => user_error_with_message("Failed to edit diff", err),
        ErrorOrigin::DiffGenerate => user_error_with_message("Failed to generate diff", err),
        ErrorOrigin::ConflictResolve => user_error_with_message("Failed to resolve conflicts", err),
        ErrorOrigin::Git => user_error_with_message("Git operation failed", err),
        ErrorOrigin::GitImport(kind) => {
            let message = glue(
                "Failed to import refs from underlying Git repo: ",
                err.message.as_str(),
            );
            let hint = match kind {
                GitImportErrorKind::MissingHeadTarget | GitImportErrorKind::MissingRefAncestor => {
                    Some(
                        "Is this Git repository a shallow or partial clone (cloned with the --depth or --filter argument)?
jj currently does not support shallow/partial clones. To use jj with this repository, try
unshallowing the repository (https://stackoverflow.com/q/6802145) or re-cloning with the full
repository contents.".to_owned(),
                    )
                },
                GitImportErrorKind::RemoteReservedForLocalGitRepo => Some(
                    "Run `jj git remote rename` to give different name.".to_owned(),
                ),
                GitImportErrorKind::InternalBackend => None,
                GitImportErrorKind::InternalGitError => None,
                GitImportErrorKind::UnexpectedBackend => None,
            };
            let chain = ErrorChain { message, sources: Vec::new() };
            assert(chain@.sources =~= Seq::<Seq<char>>::empty());
            user_error_with_hint_opt(chain, hint)
        },
        ErrorOrigin::GitExport => internal_error_with_message(
            "Failed to export refs to underlying Git repo",
            err,
        ),
        ErrorOrigin::GitRemoteManagement => user_error(err),
        ErrorOrigin::RevsetEvaluation => user_error(err),
        ErrorOrigin::RevsetParse(suggestion) => {
            let lines = chain_lines(&err);
            // Only for the top-level error as we can't attach hint to inner errors
            let hint = revset_parse_hint(suggestion);
            let chain = ErrorChain {
                message: glue("Failed to parse revset: ", lines.as_str()),
                sources: Vec::new(),
            };
            assert(chain@.sources =~= Seq::<Seq<char>>::empty());
            user_error_with_hint_opt(chain, hint)
        },
        ErrorOrigin::RevsetResolution { candidates } => {
            let hint = format_similarity_hint(&candidates);
            user_error_with_hint_opt(err, hint)
        },
        ErrorOrigin::TemplateParse => {
            let lines = chain_lines(&err);
            plain_user_error(glue("Failed to parse template: ", lines.as_str()))
        },
        ErrorOrigin::FsPathParse => user_error(err),
        ErrorOrigin::GitConfigParse => internal_error_with_message(
            "Failed to parse Git config",
            err,
        ),
        ErrorOrigin::WorkingCopyState => internal_error_with_message(
            "Failed to access working copy state",
            err,
        ),
    }
}

/// Why a workspace could not be loaded.
#[derive(Debug, PartialEq, Eq)]
pub enum WorkspaceLoadErrorKind {
    /// There is no workspace at the path; `is_git_repo` says whether the
    /// path holds a Git repository.
    NoWorkspaceHere { is_git_repo: bool },
    /// The directory of the repository, as it is shown, is missing.
    RepoDoesNotExist(String),
    StoreUnsupportedType,
    StoreReadError,
    StoreBackend,
    /// The signing backend that was asked for is not known.
    StoreSigningUnknownBackend,
    StoreOther,
    NonUnicodePath,
    Path,
}

/// The hint for a Git repository without a workspace.
pub open spec fn git_repo_hint() -> Seq<char> {
    "It looks like this is a git repo. You can create a jj repo backed by it by running this:
jj git init --git-repo=."@
}

/// What [`map_workspace_load_error`] returns.
pub open spec fn spec_map_workspace_load_error(
    kind: WorkspaceLoadErrorKind,
    err: ErrorChainView,
    workspace_path: Option<Seq<char>>,
) -> CommandErrorView {
    match kind {
        WorkspaceLoadErrorKind::NoWorkspaceHere { is_git_repo } => CommandErrorView::UserError {
            err: ErrorChainView {
                message: "There is no jj repo in \""@ + (match workspace_path {
                    Some(path) => path,
                    None => "."@,
                }) + "\""@,
                sources: Seq::empty(),
            },
            hint: if is_git_repo {
                Some(git_repo_hint())
            } else {
                None
            },
        },
        WorkspaceLoadErrorKind::RepoDoesNotExist(repo_dir) => spec_plain_user_error(
            "The repository directory at "@ + repo_dir@ + " is missing. Was it moved?"@,
        ),
        WorkspaceLoadErrorKind::StoreUnsupportedType => spec_internal_with(
            "This version of the jj binary doesn't support this type of repo"@,
            err,
        ),
        WorkspaceLoadErrorKind::StoreReadError | WorkspaceLoadErrorKind::StoreBackend => {
            spec_internal_with("The repository appears broken or inaccessible"@, err)
        },
        WorkspaceLoadErrorKind::StoreSigningUnknownBackend => spec_user(err),
        WorkspaceLoadErrorKind::StoreOther => CommandErrorView::InternalError(err),
        WorkspaceLoadErrorKind::NonUnicodePath | WorkspaceLoadErrorKind::Path => spec_user(err),
    }
}

/// The error of a command for a workspace that could not be loaded.
/// `workspace_path` is the path that the user gave, if any.
pub fn map_workspace_load_error(
    kind: WorkspaceLoadErrorKind,
    err: ErrorChain,
    workspace_path: Option<&str>,
) -> (error: CommandError)
    ensures
        error@ == spec_map_workspace_load_error(
            kind,
            err@,
            match workspace_path {
                Some(path) => Some(path@),
                None => None,
            },
        ),
{
    match kind {
        WorkspaceLoadErrorKind::NoWorkspaceHere { is_git_repo } => {
            // Prefer user-specified workspace_path_str instead of absolute wc_path.
            let workspace_path_str = match workspace_path {
                Some(path) => path,
                None => ".",
            };
            let mut message = glue("There is no jj repo in \"", workspace_path_str);
            message.append("\"");
            let chain = ErrorChain { message, sources: Vec::new() };
            assert(chain@.sources =~= Seq::<Seq<char>>::empty());
            if is_git_repo {
                user_error_with_hint(
                    chain,
                    "It looks like this is a git repo. You can create a jj repo backed by it by running this:
jj git init --git-repo=.",
                )
            } else {
                user_error(chain)
            }
        },
        WorkspaceLoadErrorKind::RepoDoesNotExist(repo_dir) => {
            let mut message = glue("The repository directory at ", repo_dir.as_str());
            message.append(" is missing. Was it moved?");
            plain_user_error(message)
        },
        WorkspaceLoadErrorKind::StoreUnsupportedType => internal_error_with_message(
            "This version of the jj binary doesn't support this type of repo",
            err,
        ),
        WorkspaceLoadErrorKind::StoreReadError | WorkspaceLoadErrorKind::StoreBackend => {
            internal_error_with_message("The repository appears broken or inaccessible", err)
        },
        WorkspaceLoadErrorKind::StoreSigningUnknownBackend => user_error(err),
        WorkspaceLoadErrorKind::StoreOther => internal_error(err),
        WorkspaceLoadErrorKind::NonUnicodePath | WorkspaceLoadErrorKind::Path => user_error(err),
    }
}

} // verus!
