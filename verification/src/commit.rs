//! What the session reads of a commit.

use crate::object_id::{ChangeId, CommitId, TreeId};
use vstd::prelude::*;

verus! {

/// A commit: its id, the id of the change that it is a version of, and the
/// id of its tree.
#[derive(Debug, PartialEq, Eq)]
pub struct Commit {
    pub id: CommitId,
    pub change_id: ChangeId,
    pub tree_id: TreeId,
}

pub struct CommitView {
    pub id: Seq<u8>,
    pub change_id: Seq<u8>,
    pub tree_id: Seq<u8>,
}

impl View for Commit {
    type V = CommitView;

    open spec fn view(&self) -> CommitView {
        CommitView { id: self.id@, change_id: self.change_id@, tree_id: self.tree_id@ }
    }
}

impl Commit {
    pub fn new(id: CommitId, change_id: ChangeId, tree_id: TreeId) -> (commit: Self)
        ensures
            commit@ == (CommitView { id: id@, change_id: change_id@, tree_id: tree_id@ }),
    {
        Commit { id, change_id, tree_id }
    }

    /// Whether two commits are the same commit, which is told by their ids.
    pub fn same_commit(&self, other: &Commit) -> (same: bool)
        ensures
            same == (self@.id == other@.id),
    {
        self.id.equals(&other.id)
    }
}

impl Clone for Commit {
    fn clone(&self) -> (copy: Self)
        ensures
            copy@ == self@,
    {
        Commit {
            id: self.id.clone(),
            change_id: self.change_id.clone(),
            tree_id: self.tree_id.clone(),
        }
    }
}

/// The commits of a list, as plain values.
pub open spec fn commits_view(commits: Seq<Commit>) -> Seq<CommitView> {
    Seq::new(commits.len(), |i: int| commits[i]@)
}

/// A commit that may be absent, as plain values.
pub open spec fn optional_commit_view(commit: Option<Commit>) -> Option<CommitView> {
    match commit {
        Some(c) => Some(c@),
        None => None,
    }
}

/// A fresh copy of a list of commits.
pub fn clone_commits(commits: &Vec<Commit>) -> (copy: Vec<Commit>)
    ensures
        commits_view(copy@) == commits_view(commits@),
{
    let mut copy: Vec<Commit> = Vec::new();
    let mut i: usize = 0;
    while i < commits.len()
        invariant
            i <= commits.len(),
            copy.len() == i,
            forall|j: int| 0 <= j < i ==> copy@[j]@ == commits@[j]@,
        decreases commits.len() - i,
    {
        copy.push(commits[i].clone());
        i += 1;
    }
    assert(commits_view(copy@) =~= commits_view(commits@));
    copy
}

} // verus!
