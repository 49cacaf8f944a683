//! From the commits that revision arguments resolve to, to the commits that
//! a command works on.
//!
//! Evaluating an expression is the work of the repository. What is decided
//! here is what follows: that an argument must name a commit, when it may
//! name only one, that no commit may be named twice, and that the root
//! commit cannot be merged with.

use crate::command_error::{
    user_error, user_error_with_hint, CommandError, CommandErrorView, ErrorChain, ErrorChainView,
};
use crate::commit::{commits_view, Commit, CommitView};
use crate::conflicts::ids_of_commits;
use crate::object_id::{copy_bytes, short_commit_hash, spec_hex, CommitId, SHORT_HASH_LEN};
use crate::text::{glue, has_prefix, join, spec_join, strings_view, strip_prefix};
use crate::workspace::spec_empty_revision_set;
use indexmap::IndexSet;
use vstd::prelude::*;
use vstd::string::*;

verus! {

/// An insertion-ordered hash set.
#[verifier::external_type_specification]
#[verifier::external_body]
#[verifier::reject_recursive_types(T)]
#[verifier::reject_recursive_types(S)]
pub struct ExIndexSet<T, S>(IndexSet<T, S>);

/// The items of a set of byte strings, in the order of the set.
pub uninterp spec fn index_set_items(set: IndexSet<Vec<u8>>) -> Seq<Seq<u8>>;

/// A set without items.
///
/// Trusted: calls `IndexSet::new` of `indexmap`, which makes an empty set.
#[verifier::external_body]
fn id_set_new() -> (set: IndexSet<Vec<u8>>)
    ensures
        index_set_items(set) == Seq::<Seq<u8>>::empty(),
{
    IndexSet::new()
}

/// Puts an item into the set.
///
/// Trusted: calls `IndexSet::insert` of `indexmap`. Where the set holds an
/// equal item, it stays as it is and the call gives `false`. Else the item
/// becomes the last of the set and the call gives `true`.
#[verifier::external_body]
fn id_set_insert(set: &mut IndexSet<Vec<u8>>, value: Vec<u8>) -> (fresh: bool)
    ensures
        fresh == !index_set_items(*old(set)).contains(value@),
        fresh ==> index_set_items(*final(set)) == index_set_items(*old(set)).push(value@),
        !fresh ==> index_set_items(*final(set)) == index_set_items(*old(set)),
{
    set.insert(value)
}

/// The commits after one is added: unchanged where they hold a commit with
/// its id, else with it as the last.
pub open spec fn spec_insert(items: Seq<CommitView>, commit: CommitView) -> Seq<CommitView> {
    if ids_of_commits(items).contains(commit.id) {
        items
    } else {
        items.push(commit)
    }
}

/// The commits after several are added, one after the other.
pub open spec fn spec_extend(items: Seq<CommitView>, commits: Seq<CommitView>) -> Seq<CommitView>
    decreases commits.len(),
{
    if commits.len() == 0 {
        items
    } else {
        spec_insert(spec_extend(items, commits.drop_last()), commits.last())
    }
}

/// Commits in the order in which they were first added, each once.
pub struct RevisionSet {
    ids: IndexSet<Vec<u8>>,
    commits: Vec<Commit>,
}

impl View for RevisionSet {
    type V = Seq<CommitView>;

    closed spec fn view(&self) -> Seq<CommitView> {
        commits_view(self.commits@)
    }
}

impl RevisionSet {
    /// The invariant of the set: it holds the ids of its commits, in their
    /// order.
    pub closed spec fn wf(&self) -> bool {
        index_set_items(self.ids) == ids_of_commits(commits_view(self.commits@))
    }

    /// A set without commits.
    pub fn new() -> (set: Self)
        ensures
            set.wf(),
            set@ == Seq::<CommitView>::empty(),
    {
        let set = RevisionSet { ids: id_set_new(), commits: Vec::new() };
        assert(ids_of_commits(commits_view(set.commits@)) =~= Seq::<Seq<u8>>::empty());
        assert(commits_view(set.commits@) =~= Seq::<CommitView>::empty());
        set
    }

    /// The number of commits.
    pub fn len(&self) -> (n: usize)
        ensures
            n == self@.len(),
    {
        self.commits.len()
    }

    /// Adds a commit, unless the set holds it. Tells whether it was added.
    pub fn insert(&mut self, commit: Commit) -> (fresh: bool)
        requires
            old(self).wf(),
        ensures
            final(self).wf(),
            fresh == !ids_of_commits(old(self)@).contains(commit@.id),
            final(self)@ == spec_insert(old(self)@, commit@),
    {
        let ghost before = commits_view(self.commits@);
        let fresh = id_set_insert(&mut self.ids, copy_bytes(&commit.id.bytes));
        if fresh {
            self.commits.push(commit);
            assert(commits_view(self.commits@) =~= before.push(commit@));
            assert(ids_of_commits(commits_view(self.commits@)) =~= ids_of_commits(before).push(
                commit@.id,
            ));
        }
        fresh
    }

    /// Adds commits, each unless the set holds it.
    pub fn extend(&mut self, commits: &Vec<Commit>)
        requires
            old(self).wf(),
        ensures
            final(self).wf(),
            final(self)@ == spec_extend(old(self)@, commits_view(commits@)),
    {
        let ghost all = commits_view(commits@);
        let mut i: usize = 0;
        assert(all.take(0) =~= Seq::<CommitView>::empty());
        while i < commits.len()
            invariant
                i <= commits.len(),
                self.wf(),
                all == commits_view(commits@),
                self@ == spec_extend(old(self)@, all.take(i as int)),
            decreases commits.len() - i,
        {
            assert(all.take(i + 1).drop_last() =~= all.take(i as int));
            assert(all.take(i + 1).last() == all[i as int]);
            self.insert(commits[i].clone());
            i += 1;
        }
        assert(all.take(commits.len() as int) =~= all);
    }

    /// The commits of the set, in their order.
    pub fn into_commits(self) -> (commits: Vec<Commit>)
        ensures
            commits_view(commits@) == self@,
    {
        self.commits
    }
}

/// The error of two arguments that name the same commit.
pub open spec fn spec_duplicate_revision(commit_id: Seq<u8>) -> CommandErrorView {
    CommandErrorView::UserError {
        err: ErrorChainView {
            message: "More than one revset resolved to revision "@ + spec_hex(commit_id).subrange(
                0,
                SHORT_HASH_LEN as int,
            ),
            sources: Seq::empty(),
        },
        hint: None,
    }
}

/// The error of a merge with the root commit.
pub open spec fn spec_merge_with_root() -> CommandErrorView {
    CommandErrorView::UserError {
        err: ErrorChainView { message: "Cannot merge with root revision"@, sources: Seq::empty() },
        hint: None,
    }
}

/// The commits that each of several arguments resolved to, as plain values.
pub open spec fn revsets_view(revsets: Seq<Vec<Commit>>) -> Seq<Seq<CommitView>> {
    Seq::new(revsets.len(), |i: int| commits_view(revsets[i]@))
}

/// The commits of the arguments from place `k` on, added to those
/// collected so far; an argument without commits is an error.
pub open spec fn spec_collect_from(
    collected: Seq<CommitView>,
    revsets: Seq<Seq<CommitView>>,
    k: int,
) -> Result<Seq<CommitView>, CommandErrorView>
    decreases revsets.len() - k,
{
    if k < 0 || k >= revsets.len() {
        Ok(collected)
    } else if revsets[k].len() == 0 {
        Err(spec_empty_revision_set())
    } else {
        spec_collect_from(spec_extend(collected, revsets[k]), revsets, k + 1)
    }
}

/// The commits from place `j` on, added to those collected so far; a
/// commit that is already there is an error.
pub open spec fn spec_insert_all_unique(
    collected: Seq<CommitView>,
    commits: Seq<CommitView>,
    j: int,
) -> Result<Seq<CommitView>, CommandErrorView>
    decreases commits.len() - j,
{
    if j < 0 || j >= commits.len() {
        Ok(collected)
    } else if ids_of_commits(collected).contains(commits[j].id) {
        Err(spec_duplicate_revision(commits[j].id))
    } else {
        spec_insert_all_unique(collected.push(commits[j]), commits, j + 1)
    }
}

/// The commits of the arguments from place `k` on, added to those
/// collected so far; an argument without commits is an error, and so is a
/// commit that was collected before.
pub open spec fn spec_collect_unique_from(
    collected: Seq<CommitView>,
    revsets: Seq<Seq<CommitView>>,
    k: int,
) -> Result<Seq<CommitView>, CommandErrorView>
    decreases revsets.len() - k,
{
    if k < 0 || k >= revsets.len() {
        Ok(collected)
    } else if revsets[k].len() == 0 {
        Err(spec_empty_revision_set())
    } else {
        match spec_insert_all_unique(collected, revsets[k], 0) {
            Ok(more) => spec_collect_unique_from(more, revsets, k + 1),
            Err(error) => Err(error),
        }
    }
}

/// The view of a list of commits or an error.
pub open spec fn commits_result_view(outcome: Result<Vec<Commit>, CommandError>) -> Result<
    Seq<CommitView>,
    CommandErrorView,
> {
    match outcome {
        Ok(commits) => Ok(commits_view(commits@)),
        Err(error) => Err(error@),
    }
}

/// Whether every commit of every argument has an id of six bytes or more,
/// as its short hash needs.
pub open spec fn all_abbreviable(revsets: Seq<Seq<CommitView>>) -> bool {
    forall|k: int, j: int|
        0 <= k < revsets.len() && 0 <= j < revsets[k].len() ==> (#[trigger] revsets[k][j]).id.len()
            >= 6
}

/// Collects the commits that several arguments resolved to, each commit
/// once, in the order in which they were first named. Every argument must
/// have resolved to a commit.
pub fn resolve_multiple_nonempty_revsets(resolved: &Vec<Vec<Commit>>) -> (outcome: Result<
    Vec<Commit>,
    CommandError,
>)
    ensures
        commits_result_view(outcome) == spec_collect_from(
            Seq::empty(),
            revsets_view(resolved@),
            0,
        ),
{
    let ghost revsets = revsets_view(resolved@);
    let mut acc = RevisionSet::new();
    let mut k: usize = 0;
    while k < resolved.len()
        invariant
            k <= resolved.len(),
            acc.wf(),
            revsets == revsets_view(resolved@),
            spec_collect_from(Seq::empty(), revsets, 0) == spec_collect_from(acc@, revsets, k as int),
        decreases resolved.len() - k,
    {
        let revisions = &resolved[k];
        assert(revsets[k as int] == commits_view(revisions@));
        if revisions.len() == 0 {
            return Err(user_error(ErrorChain::new("Empty revision set")));
        }
        acc.extend(revisions);
        k += 1;
    }
    Ok(acc.into_commits())
}

/// Collects the commits that several arguments resolved to, in the order
/// in which they were named. Every argument must have resolved to a commit,
/// and no commit may be named twice.
pub fn resolve_multiple_nonempty_revsets_default_single(resolved: &Vec<Vec<Commit>>) -> (outcome:
    Result<Vec<Commit>, CommandError>)
    requires
        all_abbreviable(revsets_view(resolved@)),
    ensures
        commits_result_view(outcome) == spec_collect_unique_from(
            Seq::empty(),
            revsets_view(resolved@),
            0,
        ),
{
    let ghost revsets = revsets_view(resolved@);
    let mut all_commits = RevisionSet::new();
    let mut k: usize = 0;
    while k < resolved.len()
        invariant
            k <= resolved.len(),
            all_commits.wf(),
            revsets == revsets_view(resolved@),
            all_abbreviable(revsets),
            spec_collect_unique_from(Seq::empty(), revsets, 0) == spec_collect_unique_from(
                all_commits@,
                revsets,
                k as int,
            ),
        decreases resolved.len() - k,
    {
        let commits = &resolved[k];
        let ghost these = commits_view(commits@);
        let ghost start = all_commits@;
        assert(revsets[k as int] == these);
        if commits.len() == 0 {
            return Err(user_error(ErrorChain::new("Empty revision set")));
        }
        let mut j: usize = 0;
        while j < commits.len()
            invariant
                j <= commits.len(),
                all_commits.wf(),
                these == commits_view(commits@),
                these.len() > 0,
                revsets == revsets_view(resolved@),
                k < revsets.len(),
                revsets[k as int] == these,
                spec_collect_unique_from(Seq::empty(), revsets, 0) == spec_collect_unique_from(
                    start,
                    revsets,
                    k as int,
                ),
                forall|i: int| 0 <= i < these.len() ==> (#[trigger] these[i]).id.len() >= 6,
                spec_insert_all_unique(start, these, 0) == spec_insert_all_unique(
                    all_commits@,
                    these,
                    j as int,
                ),
            decreases commits.len() - j,
        {
            assert(these[j as int].id.len() >= 6);
            let commit_hash = short_commit_hash(&commits[j].id);
            if !all_commits.insert(commits[j].clone()) {
                let message = glue("More than one revset resolved to revision ", commit_hash.as_str());
                let err = ErrorChain { message, sources: Vec::new() };
                assert(err@.sources =~= Seq::<Seq<char>>::empty());
                return Err(user_error(err));
            }
            j += 1;
        }
        k += 1;
    }
    Ok(all_commits.into_commits())
}

/// What [`resolve_all_revs`] returns.
pub open spec fn spec_resolve_all_revs(
    revsets: Seq<Seq<CommitView>>,
    root_commit_id: Seq<u8>,
) -> Result<Seq<CommitView>, CommandErrorView> {
    match spec_collect_unique_from(Seq::empty(), revsets, 0) {
        Ok(commits) => {
            if commits.len() >= 2 && ids_of_commits(commits).contains(root_commit_id) {
                Err(spec_merge_with_root())
            } else {
                Ok(commits)
            }
        },
        Err(error) => Err(error),
    }
}

/// Resolves revsets into revisions for use; useful for rebases or
/// operations that take multiple parents.
///
/// As [`resolve_multiple_nonempty_revsets_default_single`], and two
/// commits or more may not include the root commit.
pub fn resolve_all_revs(resolved: &Vec<Vec<Commit>>, root_commit_id: &CommitId) -> (outcome: Result<
    Vec<Commit>,
    CommandError,
>)
    requires
        all_abbreviable(revsets_view(resolved@)),
    ensures
        commits_result_view(outcome) == spec_resolve_all_revs(
            revsets_view(resolved@),
            root_commit_id@,
        ),
{
    let commits = match resolve_multiple_nonempty_revsets_default_single(resolved) {
        Ok(commits) => commits,
        Err(error) => {
            return Err(error);
        },
    };
    let ghost all = commits_view(commits@);
    let mut has_root = false;
    let mut i: usize = 0;
    while i < commits.len()
        invariant
            i <= commits.len(),
            all == commits_view(commits@),
            has_root == (exists|p: int| 0 <= p < i && (#[trigger] all[p]).id == root_commit_id@),
        decreases commits.len() - i,
    {
        let here = commits[i].id.equals(root_commit_id);
        proof {
            if here {
                assert(all[i as int].id == root_commit_id@);
            }
        }
        has_root = has_root || here;
        i += 1;
    }
    proof {
        let ids = ids_of_commits(all);
        if has_root {
            let p = choose|p: int| 0 <= p < all.len() && (#[trigger] all[p]).id == root_commit_id@;
            assert(ids[p] == root_commit_id@);
        }
        if ids.contains(root_commit_id@) {
            let p = ids.index_of(root_commit_id@);
            assert(all[p].id == root_commit_id@);
        }
    }
    if commits.len() >= 2 && has_root {
        Err(user_error(ErrorChain::new("Cannot merge with root revision")))
    } else {
        Ok(commits)
    }
}

/// A commit with the one-line summary that the user is shown of it.
#[derive(Debug, PartialEq, Eq)]
pub struct SummarizedCommit {
    pub commit: Commit,
    pub summary: String,
}

pub struct SummarizedCommitView {
    pub commit: CommitView,
    pub summary: Seq<char>,
}

impl View for SummarizedCommit {
    type V = SummarizedCommitView;

    open spec fn view(&self) -> SummarizedCommitView {
        SummarizedCommitView { commit: self.commit@, summary: self.summary@ }
    }
}

/// The candidates of a list, as plain values.
pub open spec fn candidates_view(candidates: Seq<SummarizedCommit>) -> Seq<SummarizedCommitView> {
    Seq::new(candidates.len(), |i: int| candidates[i]@)
}

/// The commits of a list of candidates.
pub open spec fn candidate_commits(candidates: Seq<SummarizedCommitView>) -> Seq<CommitView> {
    Seq::new(candidates.len(), |i: int| candidates[i].commit)
}

/// The most candidates that are listed in a hint.
pub const MAX_LISTED: usize = 5;

/// The summaries of the candidates that are listed.
pub open spec fn spec_listed(candidates: Seq<SummarizedCommitView>) -> Seq<Seq<char>> {
    Seq::new(
        if candidates.len() < MAX_LISTED {
            candidates.len()
        } else {
            MAX_LISTED as nat
        },
        |i: int| candidates[i].summary,
    )
}

/// The list of candidates in a hint: the summaries of the first five, one
/// to a line, and an ellipsis where there are more.
pub open spec fn spec_commits_summary(candidates: Seq<SummarizedCommitView>) -> Seq<char> {
    spec_join(spec_listed(candidates), "\n"@) + if candidates.len() > MAX_LISTED {
        "\n..."@
    } else {
        Seq::empty()
    }
}

/// The hint that lists the commits of an expression that should have named
/// one.
pub open spec fn spec_ambiguity_hint(
    revision_str: Seq<char>,
    candidates: Seq<SummarizedCommitView>,
    branch_name: Option<Seq<char>>,
) -> Seq<char> {
    if candidates[0].commit.change_id == candidates[1].commit.change_id {
        "The revset \""@ + revision_str + "\" resolved to these revisions:\n"@
            + spec_commits_summary(candidates)
            + "\nSome of these commits have the same change id. Abandon one of them with `jj abandon -r <REVISION>`."@
    } else {
        match branch_name {
            Some(branch) => "Branch "@ + branch
                + " resolved to multiple revisions because it's conflicted.\nIt resolved to these revisions:\n"@
                + spec_commits_summary(candidates)
                + "\nSet which revision the branch points to with `jj branch set "@ + branch
                + " -r <REVISION>`."@,
            None => "The revset \""@ + revision_str + "\" resolved to these revisions:\n"@
                + spec_commits_summary(candidates),
        }
    }
}

/// What [`resolve_single_rev`] returns.
pub open spec fn spec_resolve_single_rev(
    revision_str: Seq<char>,
    candidates: Seq<SummarizedCommitView>,
    branch_name: Option<Seq<char>>,
) -> Result<CommitView, CommandErrorView> {
    if candidates.len() == 0 {
        Err(
            CommandErrorView::UserError {
                err: ErrorChainView {
                    message: "Revset \""@ + revision_str + "\" didn't resolve to any revisions"@,
                    sources: Seq::empty(),
                },
                hint: None,
            },
        )
    } else if candidates.len() == 1 {
        Ok(candidates[0].commit)
    } else {
        Err(
            CommandErrorView::UserError {
                err: ErrorChainView {
                    message: "Revset \""@ + revision_str + "\" resolved to more than one revision"@,
                    sources: Seq::empty(),
                },
                hint: Some(spec_ambiguity_hint(revision_str, candidates, branch_name)),
            },
        )
    }
}

/// The view of a commit or an error.
pub open spec fn commit_result_view(outcome: Result<Commit, CommandError>) -> Result<
    CommitView,
    CommandErrorView,
> {
    match outcome {
        Ok(commit) => Ok(commit@),
        Err(error) => Err(error@),
    }
}

/// The list of candidates in a hint.
fn commits_summary(candidates: &Vec<SummarizedCommit>) -> (summary: String)
    ensures
        summary@ == spec_commits_summary(candidates_view(candidates@)),
{
    let ghost listed = spec_listed(candidates_view(candidates@));
    let mut shown: Vec<String> = Vec::new();
    let mut i: usize = 0;
    while i < candidates.len() && i < MAX_LISTED
        invariant
            i <= candidates.len(),
            i <= MAX_LISTED,
            shown.len() == i,
            forall|j: int| 0 <= j < i ==> (#[trigger] shown@[j])@ == candidates@[j]@.summary,
        decreases candidates.len() - i,
    {
        shown.push(candidates[i].summary.clone());
        i += 1;
    }
    assert(strings_view(shown@) =~= listed);
    let mut summary = join(&shown, "\n");
    if candidates.len() > MAX_LISTED {
        summary.append("\n...");
    } else {
        assert(summary@ + Seq::<char>::empty() =~= summary@);
    }
    summary
}

/// Resolve a revset to a single revision. Return an error if the revset is
/// empty or has multiple revisions.
///
/// `candidates` are the commits that the expression `revision_str`
/// resolved to; the error lists the first five of them. `branch_name` is
/// the name that the expression consists of, where it is a name and nothing
/// else.
pub fn resolve_single_rev(
    revision_str: &str,
    candidates: &Vec<SummarizedCommit>,
    branch_name: Option<&str>,
) -> (outcome: Result<Commit, CommandError>)
    ensures
        commit_result_view(outcome) == spec_resolve_single_rev(
            revision_str@,
            candidates_view(candidates@),
            match branch_name {
                Some(name) => Some(name@),
                None => None,
            },
        ),
{
    if candidates.len() == 0 {
        let mut message = glue("Revset \"", revision_str);
        message.append("\" didn't resolve to any revisions");
        let err = ErrorChain { message, sources: Vec::new() };
        assert(err@.sources =~= Seq::<Seq<char>>::empty());
        return Err(user_error(err));
    }
    if candidates.len() == 1 {
        return Ok(candidates[0].commit.clone());
    }
    let summary = commits_summary(candidates);
    let hint = if candidates[0].commit.change_id.equals(&candidates[1].commit.change_id) {
        // Separate hint if there's commits with same change id
        let mut hint = glue("The revset \"", revision_str);
        hint.append("\" resolved to these revisions:\n");
        hint.append(summary.as_str());
        hint.append(
            "\nSome of these commits have the same change id. Abandon one of them with `jj abandon -r <REVISION>`.",
        );
        hint
    } else {
        match branch_name {
            Some(branch) => {
                // Separate hint if there's a conflicted branch
                let mut hint = glue("Branch ", branch);
                hint.append(
                    " resolved to multiple revisions because it's conflicted.\nIt resolved to these revisions:\n",
                );
                hint.append(summary.as_str());
                hint.append("\nSet which revision the branch points to with `jj branch set ");
                hint.append(branch);
                hint.append(" -r <REVISION>`.");
                hint
            },
            None => {
                let mut hint = glue("The revset \"", revision_str);
                hint.append("\" resolved to these revisions:\n");
                hint.append(summary.as_str());
                hint
            },
        }
    };
    let mut message = glue("Revset \"", revision_str);
    message.append("\" resolved to more than one revision");
    let err = ErrorChain { message, sources: Vec::new() };
    assert(err@.sources =~= Seq::<Seq<char>>::empty());
    Err(user_error_with_hint(err, hint.as_str()))
}

/// The hint that tells of the prefix `all:`.
pub open spec fn spec_all_prefix_hint(revision_str: Seq<char>) -> Seq<char> {
    "Prefix the expression with 'all' to allow any number of revisions (i.e. 'all:"@
        + revision_str + "')."@
}

/// An error of the user with the hint at the prefix `all:` added after
/// the hint that it has, if any; any other error as it is.
pub open spec fn spec_with_all_prefix_hint(
    error: CommandErrorView,
    revision_str: Seq<char>,
) -> CommandErrorView {
    match error {
        CommandErrorView::UserError { err, hint } => CommandErrorView::UserError {
            err,
            hint: Some(
                match hint {
                    Some(old_hint) => old_hint + "\n"@ + spec_all_prefix_hint(revision_str),
                    None => spec_all_prefix_hint(revision_str),
                },
            ),
        },
        other => other,
    }
}

/// Adds the hint at the prefix `all:` to an error of the user.
pub fn with_all_prefix_hint(error: CommandError, revision_str: &str) -> (hinted: CommandError)
    ensures
        hinted@ == spec_with_all_prefix_hint(error@, revision_str@),
{
    match error {
        CommandError::UserError { err, hint } => {
            let mut all_hint = glue(
                "Prefix the expression with 'all' to allow any number of revisions (i.e. 'all:",
                revision_str,
            );
            all_hint.append("').");
            let new_hint = match hint {
                Some(old_hint) => {
                    let mut combined = glue(old_hint.as_str(), "\n");
                    combined.append(all_hint.as_str());
                    combined
                },
                None => all_hint,
            };
            CommandError::UserError { err, hint: Some(new_hint) }
        },
        other => other,
    }
}

/// What [`resolve_revset_default_single`] returns.
pub open spec fn spec_resolve_revset_default_single(
    revision_str: Seq<char>,
    candidates: Seq<SummarizedCommitView>,
    branch_name: Option<Seq<char>>,
) -> Result<Seq<CommitView>, CommandErrorView> {
    if has_prefix(revision_str, "all:"@) {
        Ok(candidate_commits(candidates))
    } else {
        match spec_resolve_single_rev(revision_str, candidates, branch_name) {
            Ok(commit) => Ok(seq![commit]),
            Err(error) => Err(spec_with_all_prefix_hint(error, revision_str)),
        }
    }
}

/// The expression to evaluate for a revision argument: the argument
/// without the prefix `all:`, where it has it.
pub fn revset_of_argument(revision_str: &str) -> (expression: String)
    ensures
        has_prefix(revision_str@, "all:"@) ==> expression@ == revision_str@.skip("all:"@.len() as int),
        !has_prefix(revision_str@, "all:"@) ==> expression@ == revision_str@,
{
    match strip_prefix(revision_str, "all:") {
        Some(rest) => rest,
        None => revision_str.to_owned(),
    }
}

/// Resolve a revset any number of revisions (including 0), but require the
/// user to indicate if they allow multiple revisions by prefixing the
/// expression with `all:`.
///
/// `candidates` are the commits that the expression resolved to.
pub fn resolve_revset_default_single(
    revision_str: &str,
    candidates: &Vec<SummarizedCommit>,
    branch_name: Option<&str>,
) -> (outcome: Result<Vec<Commit>, CommandError>)
    ensures
        commits_result_view(outcome) == spec_resolve_revset_default_single(
            revision_str@,
            candidates_view(candidates@),
            match branch_name {
                Some(name) => Some(name@),
                None => None,
            },
        ),
{
    if strip_prefix(revision_str, "all:").is_some() {
        let mut commits: Vec<Commit> = Vec::new();
        let mut i: usize = 0;
        while i < candidates.len()
            invariant
                i <= candidates.len(),
                commits.len() == i,
                forall|j: int| 0 <= j < i ==> (#[trigger] commits@[j])@ == candidates@[j]@.commit,
            decreases candidates.len() - i,
        {
            commits.push(candidates[i].commit.clone());
            i += 1;
        }
        assert(commits_view(commits@) =~= candidate_commits(candidates_view(candidates@)));
        Ok(commits)
    } else {
        match resolve_single_rev(revision_str, candidates, branch_name) {
            Ok(commit) => {
                let mut commits: Vec<Commit> = Vec::new();
                commits.push(commit);
                assert(commits_view(commits@) =~= seq![commit@]);
                Ok(commits)
            },
            Err(error) => Err(with_all_prefix_hint(error, revision_str)),
        }
    }
}

/// The error of a declaration of `immutable_heads` that takes arguments.
pub open spec fn spec_immutable_heads_with_arguments() -> CommandErrorView {
    CommandErrorView::UserError {
        err: ErrorChainView {
            message: "The `revset-aliases.immutable_heads()` function must be declared without arguments."@,
            sources: Seq::empty(),
        },
        hint: None,
    }
}

/// Checks the declaration of the function that names the immutable heads:
/// it must take no arguments.
pub fn check_immutable_heads_declaration(param_count: usize) -> (outcome: Result<(), CommandError>)
    ensures
        outcome.is_ok() == (param_count == 0),
        outcome.is_err() ==> outcome->Err_0@ == spec_immutable_heads_with_arguments(),
{
    if param_count != 0 {
        return Err(
            user_error(
                ErrorChain::new(
                    "The `revset-aliases.immutable_heads()` function must be declared without arguments.",
                ),
            ),
        );
    }
    Ok(())
}

/// The error of a command that would rewrite an immutable commit.
pub open spec fn spec_immutable_commit(commit_id: Seq<u8>, root_commit_id: Seq<u8>) -> CommandErrorView {
    if commit_id == root_commit_id {
        CommandErrorView::UserError {
            err: ErrorChainView {
                message: "The root commit "@ + spec_hex(commit_id).subrange(
                    0,
                    SHORT_HASH_LEN as int,
                ) + " is immutable"@,
                sources: Seq::empty(),
            },
            hint: None,
        }
    } else {
        CommandErrorView::UserError {
            err: ErrorChainView {
                message: "Commit "@ + spec_hex(commit_id).subrange(0, SHORT_HASH_LEN as int)
                    + " is immutable"@,
                sources: Seq::empty(),
            },
            hint: Some(
                "Configure the set of immutable commits via `revset-aliases.immutable_heads()`."@,
            ),
        }
    }
}

/// Checks that a command rewrites no immutable commit. `first_immutable` is
/// the first of the commits to rewrite that is immutable, if any is.
pub fn check_rewritable(first_immutable: Option<&CommitId>, root_commit_id: &CommitId) -> (outcome:
    Result<(), CommandError>)
    requires
        first_immutable.is_some() ==> first_immutable.unwrap()@.len() >= 6,
    ensures
        outcome.is_ok() == first_immutable.is_none(),
        outcome.is_err() ==> outcome->Err_0@ == spec_immutable_commit(
            first_immutable.unwrap()@,
            root_commit_id@,
        ),
{
    match first_immutable {
        None => Ok(()),
        Some(commit_id) => {
            let short = short_commit_hash(commit_id);
            if commit_id.equals(root_commit_id) {
                let mut message = glue("The root commit ", short.as_str());
                message.append(" is immutable");
                let err = ErrorChain { message, sources: Vec::new() };
                assert(err@.sources =~= Seq::<Seq<char>>::empty());
                Err(user_error(err))
            } else {
                let mut message = glue("Commit ", short.as_str());
                message.append(" is immutable");
                let err = ErrorChain { message, sources: Vec::new() };
                assert(err@.sources =~= Seq::<Seq<char>>::empty());
                Err(
                    user_error_with_hint(
                        err,
                        "Configure the set of immutable commits via `revset-aliases.immutable_heads()`.",
                    ),
                )
            }
        },
    }
}

} // verus!
