//! Branches on remotes that no local branch follows.

use crate::command_error::{lines_view, OutputLine, OutputStream};
use crate::text::{glue, join, spec_join, strings_view};
use vstd::prelude::*;
use vstd::string::*;

verus! {

/// A branch as a remote has it.
#[derive(Debug, PartialEq, Eq)]
pub struct RemoteRef {
    pub remote: String,
    /// Whether the local branch follows this one.
    pub tracking: bool,
}

pub struct RemoteRefView {
    pub remote: Seq<char>,
    pub tracking: bool,
}

impl View for RemoteRef {
    type V = RemoteRefView;

    open spec fn view(&self) -> RemoteRefView {
        RemoteRefView { remote: self.remote@, tracking: self.tracking }
    }
}

/// A branch: whether it exists locally, and how the remotes have it.
#[derive(Debug, PartialEq, Eq)]
pub struct BranchTarget {
    pub name: String,
    pub local_present: bool,
    pub remote_refs: Vec<RemoteRef>,
}

pub struct BranchTargetView {
    pub name: Seq<char>,
    pub local_present: bool,
    pub remote_refs: Seq<RemoteRefView>,
}

impl View for BranchTarget {
    type V = BranchTargetView;

    open spec fn view(&self) -> BranchTargetView {
        BranchTargetView {
            name: self.name@,
            local_present: self.local_present,
            remote_refs: Seq::new(self.remote_refs.len() as nat, |i: int| self.remote_refs[i]@),
        }
    }
}

/// The branches of a list, as plain values.
pub open spec fn branches_view(branches: Seq<BranchTarget>) -> Seq<BranchTargetView> {
    Seq::new(branches.len(), |i: int| branches[i]@)
}

/// The names, written `branch@remote`, of the remote branches among the
/// given ones that the local branch does not follow.
pub open spec fn spec_untracked(name: Seq<char>, remote_refs: Seq<RemoteRefView>) -> Seq<Seq<char>>
    decreases remote_refs.len(),
{
    if remote_refs.len() == 0 {
        Seq::empty()
    } else {
        let earlier = spec_untracked(name, remote_refs.drop_last());
        if remote_refs.last().tracking {
            earlier
        } else {
            earlier.push(name + "@"@ + remote_refs.last().remote)
        }
    }
}

/// The remote branches that could be tracked: of each branch that exists
/// locally, those on remotes that the local branch does not follow.
pub open spec fn spec_trackable(branches: Seq<BranchTargetView>) -> Seq<Seq<char>>
    decreases branches.len(),
{
    if branches.len() == 0 {
        Seq::empty()
    } else {
        let earlier = spec_trackable(branches.drop_last());
        if branches.last().local_present {
            earlier + spec_untracked(branches.last().name, branches.last().remote_refs)
        } else {
            earlier
        }
    }
}

/// The remote branches that could be tracked, written `branch@remote`, in
/// the order of the branches and, within a branch, of its remotes.
pub fn trackable_remote_branches(branches: &Vec<BranchTarget>) -> (names: Vec<String>)
    ensures
        strings_view(names@) == spec_trackable(branches_view(branches@)),
{
    let ghost all = branches_view(branches@);
    let mut names: Vec<String> = Vec::new();
    let mut i: usize = 0;
    assert(all.take(0) =~= Seq::<BranchTargetView>::empty());
    assert(strings_view(names@) =~= Seq::<Seq<char>>::empty());
    while i < branches.len()
        invariant
            i <= branches.len(),
            all == branches_view(branches@),
            strings_view(names@) == spec_trackable(all.take(i as int)),
        decreases branches.len() - i,
    {
        let branch = &branches[i];
        let ghost before = strings_view(names@);
        let ghost refs = branch@.remote_refs;
        proof {
            assert(all.take(i + 1).drop_last() =~= all.take(i as int));
            assert(all.take(i + 1).last() == branch@);
        }
        if branch.local_present {
            let mut k: usize = 0;
            assert(refs.take(0) =~= Seq::<RemoteRefView>::empty());
            assert(before + Seq::<Seq<char>>::empty() =~= before);
            while k < branch.remote_refs.len()
                invariant
                    k <= branch.remote_refs.len(),
                    refs == branch@.remote_refs,
                    strings_view(names@) == before + spec_untracked(branch@.name, refs.take(k as int)),
                decreases branch.remote_refs.len() - k,
            {
                let remote_ref = &branch.remote_refs[k];
                let ghost so_far = strings_view(names@);
                proof {
                    assert(refs.take(k + 1).drop_last() =~= refs.take(k as int));
                    assert(refs.take(k + 1).last() == remote_ref@);
                }
                if !remote_ref.tracking {
                    let mut full_name = glue(branch.name.as_str(), "@");
                    full_name.append(remote_ref.remote.as_str());
                    let ghost text = full_name@;
                    names.push(full_name);
                    assert(strings_view(names@) =~= so_far.push(text));
                    assert(so_far.push(text) =~= before + spec_untracked(
                        branch@.name,
                        refs.take(k as int),
                    ).push(text));
                }
                k += 1;
            }
            assert(refs.take(branch.remote_refs.len() as int) =~= refs);
        }
        i += 1;
    }
    assert(all.take(branches.len() as int) =~= all);
    names
}

/// What the user is told of remote branches that could be tracked.
pub open spec fn spec_trackable_lines(names: Seq<Seq<char>>) -> Seq<(OutputStream, Seq<char>)> {
    if names.len() == 0 {
        Seq::empty()
    } else {
        seq![
            (
                OutputStream::Hint,
                "The following remote branches aren't associated with the existing local branches:\n"@,
            ),
        ] + Seq::new(names.len(), |i: int| (OutputStream::Stderr, "  "@ + names[i] + "\n"@)) + seq![
            (
                OutputStream::Hint,
                "Hint: Run `jj branch track "@ + spec_join(names, " "@)
                    + "` to keep local branches updated on future pulls.\n"@,
            ),
        ]
    }
}

/// What to tell the user of remote branches that could be tracked:
/// nothing where there is none, else their names and how to track them.
pub fn trackable_remote_branches_lines(names: &Vec<String>) -> (lines: Vec<OutputLine>)
    ensures
        lines_view(lines@) == spec_trackable_lines(strings_view(names@)),
{
    let mut lines: Vec<OutputLine> = Vec::new();
    if names.len() == 0 {
        assert(lines_view(lines@) =~= Seq::empty());
        return lines;
    }
    let ghost all = strings_view(names@);
    let ghost head = seq![
        (
            OutputStream::Hint,
            "The following remote branches aren't associated with the existing local branches:\n"@,
        ),
    ];
    let ghost listed = Seq::new(all.len(), |i: int| (OutputStream::Stderr, "  "@ + all[i] + "\n"@));
    lines.push(
        OutputLine {
            stream: OutputStream::Hint,
            text: "The following remote branches aren't associated with the existing local branches:\n".to_owned(),
        },
    );
    assert(lines_view(lines@) =~= head + listed.take(0));
    let mut i: usize = 0;
    while i < names.len()
        invariant
            i <= names.len(),
            all == strings_view(names@),
            listed == Seq::new(all.len(), |i: int| (OutputStream::Stderr, "  "@ + all[i] + "\n"@)),
            lines_view(lines@) == head + listed.take(i as int),
        decreases names.len() - i,
    {
        let ghost so_far = lines_view(lines@);
        let mut text = glue("  ", names[i].as_str());
        text.append("\n");
        assert(all[i as int] == names@[i as int]@);
        let ghost entry = (OutputStream::Stderr, text@);
        assert(entry == listed[i as int]);
        lines.push(OutputLine { stream: OutputStream::Stderr, text });
        assert(lines_view(lines@) =~= so_far.push(entry));
        assert(listed.take(i + 1) =~= listed.take(i as int).push(entry));
        i += 1;
    }
    assert(listed.take(names.len() as int) =~= listed);
    let joined = join(names, " ");
    let mut hint = glue("Hint: Run `jj branch track ", joined.as_str());
    hint.append("` to keep local branches updated on future pulls.\n");
    let ghost so_far = lines_view(lines@);
    let ghost last = (OutputStream::Hint, hint@);
    lines.push(OutputLine { stream: OutputStream::Hint, text: hint });
    assert(lines_view(lines@) =~= so_far.push(last));
    assert(so_far.push(last) =~= head + listed + seq![last]);
    lines
}

} // verus!
