//! Which conflicts a transaction brought and which it resolved.
//!
//! The conflicted commits that left the repository with a transaction and
//! those that joined it are grouped by change. A change that has conflicted
//! commits on both sides is still conflicted and is not reported. A change
//! that only left is reported as resolved or abandoned, one that only
//! joined as a new conflict.

use crate::commit::{clone_commits, commits_view, Commit, CommitView};
use crate::object_id::{
    copy_bytes, short_change_hash, spec_hex, spec_reverse_hex, ChangeId, CommitId, SHORT_HASH_LEN,
};
use crate::text::{glue, strings_view};
use indexmap::IndexMap;
use vstd::prelude::*;
use vstd::string::*;

verus! {

/// An insertion-ordered hash map.
#[verifier::external_type_specification]
#[verifier::external_body]
#[verifier::reject_recursive_types(K)]
#[verifier::reject_recursive_types(V)]
#[verifier::reject_recursive_types(S)]
pub struct ExIndexMap<K, V, S>(IndexMap<K, V, S>);

/// The key-value pairs of a map from byte strings to lists of numbers, in
/// the order of the map.
pub uninterp spec fn index_map_entries(map: IndexMap<Vec<u8>, Vec<usize>>) -> Seq<
    (Seq<u8>, Seq<usize>),
>;

/// The keys of a list of pairs.
pub open spec fn entry_keys(entries: Seq<(Seq<u8>, Seq<usize>)>) -> Seq<Seq<u8>> {
    Seq::new(entries.len(), |i: int| entries[i].0)
}

/// The pairs after a number is appended to the list under a key: to the
/// list of the pair that has the key, or, where none has it, as the only
/// number of a new last pair.
pub open spec fn entries_push(entries: Seq<(Seq<u8>, Seq<usize>)>, key: Seq<u8>, value: usize) -> Seq<
    (Seq<u8>, Seq<usize>),
> {
    if entry_keys(entries).contains(key) {
        let i = entry_keys(entries).index_of(key);
        entries.update(i, (key, entries[i].1.push(value)))
    } else {
        entries.push((key, seq![value]))
    }
}

/// A map without pairs.
///
/// Trusted: calls `IndexMap::new` of `indexmap`, which makes an empty map.
#[verifier::external_body]
fn group_map_new() -> (map: IndexMap<Vec<u8>, Vec<usize>>)
    ensures
        index_map_entries(map) == Seq::<(Seq<u8>, Seq<usize>)>::empty(),
{
    IndexMap::new()
}

/// Appends a number to the list under a key.
///
/// Trusted: calls `IndexMap::entry` and `Entry::or_default` of `indexmap`
/// and pushes to the list that they give. A key that the map holds keeps its
/// place, and its list gets the number at its end. A key that the map does
/// not hold becomes the last pair, with an empty list that then gets the
/// number. No other pair changes.
#[verifier::external_body]
fn group_map_push(map: &mut IndexMap<Vec<u8>, Vec<usize>>, key: Vec<u8>, value: usize)
    ensures
        index_map_entries(*final(map)) == entries_push(index_map_entries(*old(map)), key@, value),
{
    map.entry(key).or_default().push(value);
}

/// The number of pairs.
///
/// Trusted: calls `IndexMap::len` of `indexmap`.
#[verifier::external_body]
fn group_map_len(map: &IndexMap<Vec<u8>, Vec<usize>>) -> (n: usize)
    ensures
        n == index_map_entries(*map).len(),
{
    map.len()
}

/// The pair at a place, copied.
///
/// Trusted: calls `IndexMap::get_index` of `indexmap`, which gives the pair
/// at a place below the length of the map, and nothing at any other.
#[verifier::external_body]
fn group_map_get_index(map: &IndexMap<Vec<u8>, Vec<usize>>, index: usize) -> (pair: Option<
    (Vec<u8>, Vec<usize>),
>)
    ensures
        index < index_map_entries(*map).len() ==> pair.is_some() && (
            pair.unwrap().0@,
            pair.unwrap().1@,
        ) == index_map_entries(*map)[index as int],
        index >= index_map_entries(*map).len() ==> pair.is_none(),
{
    map.get_index(index).map(|(key, value)| (key.clone(), value.clone()))
}

/// The conflicted commits of one change.
#[derive(Debug, PartialEq, Eq)]
pub struct ConflictGroup {
    pub change_id: ChangeId,
    pub commits: Vec<Commit>,
}

pub struct ConflictGroupView {
    pub change_id: Seq<u8>,
    pub commits: Seq<CommitView>,
}

impl View for ConflictGroup {
    type V = ConflictGroupView;

    open spec fn view(&self) -> ConflictGroupView {
        ConflictGroupView { change_id: self.change_id@, commits: commits_view(self.commits@) }
    }
}

impl Clone for ConflictGroup {
    fn clone(&self) -> (copy: Self)
        ensures
            copy@ == self@,
    {
        ConflictGroup { change_id: self.change_id.clone(), commits: clone_commits(&self.commits) }
    }
}

/// The groups of a list, as plain values.
pub open spec fn groups_view(groups: Seq<ConflictGroup>) -> Seq<ConflictGroupView> {
    Seq::new(groups.len(), |i: int| groups[i]@)
}

/// The change ids of a list of groups.
pub open spec fn group_keys(groups: Seq<ConflictGroupView>) -> Seq<Seq<u8>> {
    Seq::new(groups.len(), |i: int| groups[i].change_id)
}

/// Whether some group is the group of the given change.
pub open spec fn has_change(groups: Seq<ConflictGroupView>, change_id: Seq<u8>) -> bool {
    group_keys(groups).contains(change_id)
}

/// Whether some commit of the list belongs to the given change.
pub open spec fn touches_change(commits: Seq<CommitView>, change_id: Seq<u8>) -> bool {
    exists|i: int| 0 <= i < commits.len() && (#[trigger] commits[i]).change_id == change_id
}

/// The groups after a commit is added: to the group of its change, or,
/// where there is none, as the only commit of a new last group.
pub open spec fn add_commit(groups: Seq<ConflictGroupView>, commit: CommitView) -> Seq<
    ConflictGroupView,
> {
    if has_change(groups, commit.change_id) {
        let i = group_keys(groups).index_of(commit.change_id);
        groups.update(
            i,
            ConflictGroupView {
                change_id: commit.change_id,
                commits: groups[i].commits.push(commit),
            },
        )
    } else {
        groups.push(ConflictGroupView { change_id: commit.change_id, commits: seq![commit] })
    }
}

/// Commits grouped by change: the groups stand in the order in which their
/// changes first occur, and the commits of a group in the order of the list.
pub open spec fn spec_commits_by_change_id(commits: Seq<CommitView>) -> Seq<ConflictGroupView>
    decreases commits.len(),
{
    if commits.len() == 0 {
        Seq::empty()
    } else {
        add_commit(spec_commits_by_change_id(commits.drop_last()), commits.last())
    }
}

/// The groups that a list of pairs of a change id and places in a list of
/// commits stands for.
pub open spec fn entries_as_groups(
    entries: Seq<(Seq<u8>, Seq<usize>)>,
    commits: Seq<CommitView>,
) -> Seq<ConflictGroupView> {
    Seq::new(
        entries.len(),
        |i: int|
            ConflictGroupView {
                change_id: entries[i].0,
                commits: Seq::new(entries[i].1.len(), |k: int| commits[entries[i].1[k] as int]),
            },
    )
}

/// Whether every place in the pairs is below a bound.
pub open spec fn entries_below(entries: Seq<(Seq<u8>, Seq<usize>)>, bound: int) -> bool {
    forall|i: int, k: int|
        0 <= i < entries.len() && 0 <= k < entries[i].1.len() ==> (#[trigger] entries[i].1[k])
            < bound
}

/// Appending a place to the pairs adds the commit at that place to the
/// groups that the pairs stand for.
proof fn lemma_push_adds_commit(
    entries: Seq<(Seq<u8>, Seq<usize>)>,
    commits: Seq<CommitView>,
    j: usize,
)
    requires
        0 <= j < commits.len(),
        entries_below(entries, j as int),
    ensures
        entries_below(entries_push(entries, commits[j as int].change_id, j), j + 1),
        entries_as_groups(entries_push(entries, commits[j as int].change_id, j), commits.take(j + 1))
            == add_commit(
            entries_as_groups(entries, commits.take(j as int)),
            commits[j as int],
        ),
{
    let key = commits[j as int].change_id;
    let groups = entries_as_groups(entries, commits.take(j as int));
    let pushed = entries_push(entries, key, j);
    let longer = commits.take(j + 1);
    assert(entry_keys(entries) =~= group_keys(groups));
    if entry_keys(entries).contains(key) {
        let i = entry_keys(entries).index_of(key);
        assert forall|a: int, k: int|
            0 <= a < pushed.len() && 0 <= k < pushed[a].1.len() implies (#[trigger] pushed[a].1[k])
            < j + 1 by {
            if a == i && k == entries[i].1.len() {
            } else {
                assert(pushed[a].1[k] == entries[a].1[k]);
            }
        }
        let expected = add_commit(groups, commits[j as int]);
        assert(entries_as_groups(pushed, longer).len() == expected.len());
        assert forall|a: int| 0 <= a < pushed.len() implies entries_as_groups(pushed, longer)[a]
            == expected[a] by {
            if a == i {
                assert(entries_as_groups(pushed, longer)[a].commits =~= groups[i].commits.push(
                    commits[j as int],
                ));
            } else {
                assert(entries_as_groups(pushed, longer)[a].commits =~= groups[a].commits);
            }
        }
        assert(entries_as_groups(pushed, longer) =~= expected);
    } else {
        let expected = add_commit(groups, commits[j as int]);
        assert forall|a: int, k: int|
            0 <= a < pushed.len() && 0 <= k < pushed[a].1.len() implies (#[trigger] pushed[a].1[k])
            < j + 1 by {
            if a < entries.len() {
                assert(pushed[a].1[k] == entries[a].1[k]);
            }
        }
        assert forall|a: int| 0 <= a < pushed.len() implies entries_as_groups(pushed, longer)[a]
            == expected[a] by {
            if a < entries.len() {
                assert(entries_as_groups(pushed, longer)[a].commits =~= groups[a].commits);
            } else {
                assert(entries_as_groups(pushed, longer)[a].commits =~= seq![commits[j as int]]);
            }
        }
        assert(entries_as_groups(pushed, longer) =~= expected);
    }
}

/// Whether the map holds a key.
///
/// Trusted: calls `IndexMap::contains_key` of `indexmap`, which tells
/// whether some pair of the map has a key equal to the given one.
#[verifier::external_body]
fn group_map_contains_key(map: &IndexMap<Vec<u8>, Vec<usize>>, key: &Vec<u8>) -> (found: bool)
    ensures
        found == entry_keys(index_map_entries(*map)).contains(key@),
{
    map.contains_key(key)
}

/// The map from each change to the places of its commits in the list.
fn group_map_of(commits: &Vec<Commit>) -> (map: IndexMap<Vec<u8>, Vec<usize>>)
    ensures
        entries_below(index_map_entries(map), commits.len() as int),
        entries_as_groups(index_map_entries(map), commits_view(commits@))
            == spec_commits_by_change_id(commits_view(commits@)),
{
    let ghost all = commits_view(commits@);
    let mut map = group_map_new();
    let mut j: usize = 0;
    assert(all.take(0) =~= Seq::<CommitView>::empty());
    assert(entries_as_groups(index_map_entries(map), all.take(0)) =~= Seq::<
        ConflictGroupView,
    >::empty());
    while j < commits.len()
        invariant
            j <= commits.len(),
            all == commits_view(commits@),
            entries_below(index_map_entries(map), j as int),
            entries_as_groups(index_map_entries(map), all.take(j as int))
                == spec_commits_by_change_id(all.take(j as int)),
        decreases commits.len() - j,
    {
        proof {
            lemma_push_adds_commit(index_map_entries(map), all, j);
            assert(all.take(j + 1).drop_last() =~= all.take(j as int));
            assert(all.take(j + 1).last() == all[j as int]);
        }
        let key = copy_bytes(&commits[j].change_id.bytes);
        group_map_push(&mut map, key, j);
        j += 1;
    }
    assert(all.take(commits.len() as int) =~= all);
    map
}

/// The group at a place of the map, with the commits that its places name.
fn group_at(map: &IndexMap<Vec<u8>, Vec<usize>>, commits: &Vec<Commit>, i: usize) -> (group:
    ConflictGroup)
    requires
        i < index_map_entries(*map).len(),
        entries_below(index_map_entries(*map), commits.len() as int),
    ensures
        group@ == entries_as_groups(index_map_entries(*map), commits_view(commits@))[i as int],
{
    let ghost entries = index_map_entries(*map);
    let ghost all = commits_view(commits@);
    let pair = group_map_get_index(map, i).unwrap();
    let places = pair.1;
    let mut members: Vec<Commit> = Vec::new();
    let mut k: usize = 0;
    while k < places.len()
        invariant
            k <= places.len(),
            i < entries.len(),
            places@ == entries[i as int].1,
            all == commits_view(commits@),
            entries_below(entries, commits.len() as int),
            members.len() == k,
            forall|b: int| 0 <= b < k ==> (#[trigger] members@[b])@ == all[places@[b] as int],
        decreases places.len() - k,
    {
        assert(entries[i as int].1[k as int] < commits.len());
        members.push(commits[places[k]].clone());
        k += 1;
    }
    let group = ConflictGroup { change_id: ChangeId::new(pair.0), commits: members };
    assert(group@.commits =~= entries_as_groups(entries, all)[i as int].commits);
    group
}

/// Groups commits by change, in the order in which the changes first occur.
pub fn commits_by_change_id(commits: &Vec<Commit>) -> (groups: Vec<ConflictGroup>)
    ensures
        groups_view(groups@) == spec_commits_by_change_id(commits_view(commits@)),
{
    let map = group_map_of(commits);
    let ghost entries = index_map_entries(map);
    let ghost all = commits_view(commits@);
    let n = group_map_len(&map);
    let mut groups: Vec<ConflictGroup> = Vec::new();
    let mut i: usize = 0;
    while i < n
        invariant
            i <= n,
            n == entries.len(),
            entries == index_map_entries(map),
            all == commits_view(commits@),
            entries_below(entries, commits.len() as int),
            groups.len() == i,
            forall|a: int| 0 <= a < i ==> (#[trigger] groups@[a])@ == entries_as_groups(entries, all)[a],
        decreases n - i,
    {
        groups.push(group_at(&map, commits, i));
        i += 1;
    }
    assert(groups_view(groups@) =~= entries_as_groups(entries, all));
    groups
}

/// The groups whose change has no group in the other list, in their order.
pub open spec fn spec_without(groups: Seq<ConflictGroupView>, other: Seq<ConflictGroupView>) -> Seq<
    ConflictGroupView,
> {
    groups.filter(|g: ConflictGroupView| !has_change(other, g.change_id))
}

/// The changes that lost their conflicted commits and got none: resolved
/// or abandoned.
pub open spec fn spec_resolved(removed: Seq<CommitView>, added: Seq<CommitView>) -> Seq<
    ConflictGroupView,
> {
    spec_without(spec_commits_by_change_id(removed), spec_commits_by_change_id(added))
}

/// The changes that got conflicted commits and lost none: new conflicts.
pub open spec fn spec_new_conflicts(removed: Seq<CommitView>, added: Seq<CommitView>) -> Seq<
    ConflictGroupView,
> {
    spec_without(spec_commits_by_change_id(added), spec_commits_by_change_id(removed))
}

/// The groups of the commits whose change none of the other commits
/// belongs to.
fn groups_without(commits: &Vec<Commit>, other: &Vec<Commit>) -> (kept: Vec<ConflictGroup>)
    ensures
        groups_view(kept@) == spec_without(
            spec_commits_by_change_id(commits_view(commits@)),
            spec_commits_by_change_id(commits_view(other@)),
        ),
{
    let map = group_map_of(commits);
    let other_map = group_map_of(other);
    let ghost entries = index_map_entries(map);
    let ghost groups = spec_commits_by_change_id(commits_view(commits@));
    let ghost others = spec_commits_by_change_id(commits_view(other@));
    let ghost keep = |g: ConflictGroupView| !has_change(others, g.change_id);
    let n = group_map_len(&map);
    let mut kept: Vec<ConflictGroup> = Vec::new();
    let mut i: usize = 0;
    proof {
        reveal(Seq::filter);
        assert(groups.take(0) =~= Seq::<ConflictGroupView>::empty());
        assert(groups_view(kept@) =~= groups.take(0).filter(keep));
        assert(entry_keys(index_map_entries(other_map)) =~= group_keys(others));
    }
    while i < n
        invariant
            i <= n,
            n == entries.len(),
            entries == index_map_entries(map),
            entries_below(entries, commits.len() as int),
            groups == entries_as_groups(entries, commits_view(commits@)),
            entry_keys(index_map_entries(other_map)) == group_keys(others),
            keep == |g: ConflictGroupView| !has_change(others, g.change_id),
            groups_view(kept@) == groups.take(i as int).filter(keep),
        decreases n - i,
    {
        let group = group_at(&map, commits, i);
        proof {
            reveal(Seq::filter);
            assert(groups.take(i + 1).drop_last() =~= groups.take(i as int));
            assert(groups.take(i + 1).last() == groups[i as int]);
        }
        let ghost before = groups_view(kept@);
        if !group_map_contains_key(&other_map, &group.change_id.bytes) {
            kept.push(group);
            assert(groups_view(kept@) =~= before.push(groups[i as int]));
        }
        i += 1;
    }
    assert(groups.take(n as int) =~= groups);
    kept
}

/// The changes whose conflicts a transaction resolved and those that it
/// brought into conflict.
#[derive(Debug, PartialEq, Eq)]
pub struct ConflictDelta {
    /// Changes whose conflicted commits left and that got none.
    pub resolved: Vec<ConflictGroup>,
    /// Changes that got conflicted commits and lost none.
    pub new_conflicts: Vec<ConflictGroup>,
}

/// Classifies the changes of the conflicted commits that left the
/// repository with a transaction (`removed`) and of those that joined it
/// (`added`).
pub fn conflict_delta(removed: &Vec<Commit>, added: &Vec<Commit>) -> (delta: ConflictDelta)
    ensures
        groups_view(delta.resolved@) == spec_resolved(commits_view(removed@), commits_view(added@)),
        groups_view(delta.new_conflicts@) == spec_new_conflicts(
            commits_view(removed@),
            commits_view(added@),
        ),
{
    ConflictDelta {
        resolved: groups_without(removed, added),
        new_conflicts: groups_without(added, removed),
    }
}

/// A change has a group exactly if one of the commits belongs to it.
pub proof fn lemma_groups_cover_changes(commits: Seq<CommitView>, change_id: Seq<u8>)
    ensures
        has_change(spec_commits_by_change_id(commits), change_id) == touches_change(
            commits,
            change_id,
        ),
    decreases commits.len(),
{
    if commits.len() > 0 {
        let shorter = commits.drop_last();
        let last = commits.last();
        let before = spec_commits_by_change_id(shorter);
        let after = spec_commits_by_change_id(commits);
        lemma_groups_cover_changes(shorter, change_id);
        assert(after == add_commit(before, last));
        if has_change(before, last.change_id) {
            let i = group_keys(before).index_of(last.change_id);
            assert(group_keys(after) =~= group_keys(before));
        } else {
            assert(group_keys(after) =~= group_keys(before).push(last.change_id));
        }
        if touches_change(commits, change_id) {
            let i = choose|i: int|
                0 <= i < commits.len() && (#[trigger] commits[i]).change_id == change_id;
            if i < shorter.len() {
                assert(shorter[i].change_id == change_id);
                assert(has_change(before, change_id));
                let g = group_keys(before).index_of(change_id);
                assert(group_keys(after)[g] == change_id);
            } else {
                assert(last.change_id == change_id);
                if has_change(before, last.change_id) {
                } else {
                    assert(group_keys(after)[before.len() as int] == change_id);
                }
            }
        }
        if has_change(after, change_id) {
            let g = choose|g: int| 0 <= g < group_keys(after).len() && group_keys(after)[g] == change_id;
            if g < before.len() {
                assert(group_keys(before)[g] == change_id);
                assert(touches_change(shorter, change_id));
                let i = choose|i: int|
                    0 <= i < shorter.len() && (#[trigger] shorter[i]).change_id == change_id;
                assert(commits[i].change_id == change_id);
            } else {
                assert(commits[commits.len() - 1].change_id == change_id);
            }
        }
    }
}

/// Whether no two groups are groups of the same change, no group is
/// empty, and every commit of a group belongs to the change of the group.
pub open spec fn groups_wf(groups: Seq<ConflictGroupView>) -> bool {
    &&& forall|i: int, j: int|
        0 <= i < j < groups.len() ==> (#[trigger] groups[i]).change_id != (
        #[trigger] groups[j]).change_id
    &&& forall|i: int| 0 <= i < groups.len() ==> (#[trigger] groups[i]).commits.len() > 0
    &&& forall|i: int, k: int|
        0 <= i < groups.len() && 0 <= k < groups[i].commits.len() ==> (
        #[trigger] groups[i].commits[k]).change_id == groups[i].change_id
}

/// Grouping gives one group for each change, none of them empty, and puts
/// every commit into the group of its change.
pub proof fn lemma_groups_well_formed(commits: Seq<CommitView>)
    ensures
        groups_wf(spec_commits_by_change_id(commits)),
    decreases commits.len(),
{
    if commits.len() > 0 {
        let last = commits.last();
        let before = spec_commits_by_change_id(commits.drop_last());
        let after = spec_commits_by_change_id(commits);
        lemma_groups_well_formed(commits.drop_last());
        assert(after == add_commit(before, last));
        if has_change(before, last.change_id) {
            let g = group_keys(before).index_of(last.change_id);
            assert(group_keys(before)[g] == last.change_id);
            assert forall|i: int, j: int| 0 <= i < j < after.len() implies (#[trigger] after[i]).change_id
                != (#[trigger] after[j]).change_id by {
                assert(after[i].change_id == before[i].change_id);
                assert(after[j].change_id == before[j].change_id);
            }
            assert forall|i: int, k: int|
                0 <= i < after.len() && 0 <= k < after[i].commits.len() implies (
            #[trigger] after[i].commits[k]).change_id == after[i].change_id by {
                if i == g {
                    if k < before[g].commits.len() {
                        assert(after[i].commits[k] == before[g].commits[k]);
                    }
                } else {
                    assert(after[i] == before[i]);
                }
            }
        } else {
            assert forall|i: int, j: int| 0 <= i < j < after.len() implies (#[trigger] after[i]).change_id
                != (#[trigger] after[j]).change_id by {
                if j == before.len() {
                    assert(group_keys(before)[i] == before[i].change_id);
                }
            }
        }
    }
}

/// A change is kept exactly if it has a group here and none in the other
/// list.
pub proof fn lemma_without_keeps(
    groups: Seq<ConflictGroupView>,
    other: Seq<ConflictGroupView>,
    change_id: Seq<u8>,
)
    ensures
        has_change(spec_without(groups, other), change_id) == (has_change(groups, change_id)
            && !has_change(other, change_id)),
    decreases groups.len(),
{
    reveal(Seq::filter);
    let keep = |g: ConflictGroupView| !has_change(other, g.change_id);
    if groups.len() > 0 {
        let shorter = groups.drop_last();
        let last = groups.last();
        lemma_without_keeps(shorter, other, change_id);
        let kept_before = shorter.filter(keep);
        let kept = groups.filter(keep);
        if keep(last) {
            assert(kept == kept_before.push(last));
            assert(group_keys(kept) =~= group_keys(kept_before).push(last.change_id));
        } else {
            assert(kept == kept_before);
        }
        assert(group_keys(groups) =~= group_keys(shorter).push(last.change_id));
        if has_change(kept, change_id) {
            let g = choose|g: int| 0 <= g < group_keys(kept).len() && group_keys(kept)[g] == change_id;
            if g < kept_before.len() {
                assert(group_keys(kept_before)[g] == change_id);
                assert(has_change(shorter, change_id));
                let h = group_keys(shorter).index_of(change_id);
                assert(group_keys(groups)[h] == change_id);
            } else {
                assert(group_keys(groups)[groups.len() - 1] == change_id);
            }
        }
        if has_change(groups, change_id) && !has_change(other, change_id) {
            let h = choose|h: int|
                0 <= h < group_keys(groups).len() && group_keys(groups)[h] == change_id;
            if h < shorter.len() {
                assert(group_keys(shorter)[h] == change_id);
                let g = group_keys(kept_before).index_of(change_id);
                assert(group_keys(kept)[g] == change_id);
            } else {
                assert(keep(last));
                assert(group_keys(kept)[kept_before.len() as int] == change_id);
            }
        }
    } else {
        assert(group_keys(groups.filter(keep)) =~= Seq::<Seq<u8>>::empty());
    }
}

/// Every change is reported at most once: as resolved exactly if
/// conflicted commits of it left the repository and none joined, as a new
/// conflict exactly if some joined and none left, and not at all if it had
/// conflicted commits on both sides or on neither.
pub proof fn lemma_conflict_delta_partition(
    removed: Seq<CommitView>,
    added: Seq<CommitView>,
    change_id: Seq<u8>,
)
    ensures
        has_change(spec_resolved(removed, added), change_id) == (touches_change(removed, change_id)
            && !touches_change(added, change_id)),
        has_change(spec_new_conflicts(removed, added), change_id) == (touches_change(
            added,
            change_id,
        ) && !touches_change(removed, change_id)),
        !(has_change(spec_resolved(removed, added), change_id) && has_change(
            spec_new_conflicts(removed, added),
            change_id,
        )),
        touches_change(removed, change_id) == touches_change(added, change_id) ==> !has_change(
            spec_resolved(removed, added),
            change_id,
        ) && !has_change(spec_new_conflicts(removed, added), change_id),
{
    lemma_groups_cover_changes(removed, change_id);
    lemma_groups_cover_changes(added, change_id);
    lemma_without_keeps(
        spec_commits_by_change_id(removed),
        spec_commits_by_change_id(added),
        change_id,
    );
    lemma_without_keeps(
        spec_commits_by_change_id(added),
        spec_commits_by_change_id(removed),
        change_id,
    );
}

/// The byte strings of a list of commit ids.
pub open spec fn commit_ids_view(ids: Seq<CommitId>) -> Seq<Seq<u8>> {
    Seq::new(ids.len(), |i: int| ids[i]@)
}

/// The ids of a list of commits.
pub open spec fn ids_of_commits(commits: Seq<CommitView>) -> Seq<Seq<u8>> {
    Seq::new(commits.len(), |i: int| commits[i].id)
}

/// A fresh copy of a list of commit ids.
pub fn clone_commit_ids(ids: &Vec<CommitId>) -> (copy: Vec<CommitId>)
    ensures
        commit_ids_view(copy@) == commit_ids_view(ids@),
{
    let mut copy: Vec<CommitId> = Vec::new();
    let mut i: usize = 0;
    while i < ids.len()
        invariant
            i <= ids.len(),
            copy.len() == i,
            forall|j: int| 0 <= j < i ==> copy@[j]@ == ids@[j]@,
        decreases ids.len() - i,
    {
        copy.push(ids[i].clone());
        i += 1;
    }
    assert(commit_ids_view(copy@) =~= commit_ids_view(ids@));
    copy
}

/// The ids of a list of commits.
pub fn commit_ids(commits: &Vec<Commit>) -> (ids: Vec<CommitId>)
    ensures
        commit_ids_view(ids@) == ids_of_commits(commits_view(commits@)),
{
    let mut ids: Vec<CommitId> = Vec::new();
    let mut i: usize = 0;
    while i < commits.len()
        invariant
            i <= commits.len(),
            ids.len() == i,
            forall|j: int| 0 <= j < i ==> ids@[j]@ == commits@[j]@.id,
        decreases commits.len() - i,
    {
        ids.push(commits[i].id.clone());
        i += 1;
    }
    assert(commit_ids_view(ids@) =~= ids_of_commits(commits_view(commits@)));
    ids
}

/// The conflicted commits that can be reached from `heads` and not from
/// `roots`. Only conflicts in files count: a commit whose conflict is in
/// its metadata alone is left out.
#[derive(Debug, PartialEq, Eq)]
pub struct ConflictRange {
    pub roots: Vec<CommitId>,
    pub heads: Vec<CommitId>,
}

pub struct ConflictRangeView {
    pub roots: Seq<Seq<u8>>,
    pub heads: Seq<Seq<u8>>,
}

impl View for ConflictRange {
    type V = ConflictRangeView;

    open spec fn view(&self) -> ConflictRangeView {
        ConflictRangeView { roots: commit_ids_view(self.roots@), heads: commit_ids_view(self.heads@) }
    }
}

/// How the hint names the commits to start from.
#[derive(Debug, PartialEq, Eq, Structural, Clone, Copy)]
pub enum HintHeading {
    /// A single commit is newly conflicted.
    It,
    /// Several are, and one of them comes first.
    FirstOne,
    /// Several are, and several come first.
    OneOfFirstOnes,
}

/// Where to start resolving: the conflicted commits that joined the
/// repository and have no other such commit among their ancestors.
#[derive(Debug, PartialEq, Eq)]
pub struct ConflictHint {
    pub heading: HintHeading,
    pub roots: Vec<Commit>,
}

pub struct ConflictHintView {
    pub heading: HintHeading,
    pub roots: Seq<CommitView>,
}

impl View for ConflictHint {
    type V = ConflictHintView;

    open spec fn view(&self) -> ConflictHintView {
        ConflictHintView { heading: self.heading, roots: commits_view(self.roots@) }
    }
}

/// What the user is told of the conflicts after a transaction.
#[derive(Debug, PartialEq, Eq)]
pub struct ConflictReport {
    /// Changes whose conflicts were resolved or whose conflicted commits
    /// were abandoned.
    pub resolved: Vec<ConflictGroup>,
    /// Changes that are newly in conflict.
    pub new_conflicts: Vec<ConflictGroup>,
    /// Whether to say that rebased descendants are still in conflict.
    pub still_unresolved: bool,
    /// Where to start resolving, if anywhere.
    pub hint: Option<ConflictHint>,
}

pub struct ConflictReportView {
    pub resolved: Seq<ConflictGroupView>,
    pub new_conflicts: Seq<ConflictGroupView>,
    pub still_unresolved: bool,
    pub hint: Option<ConflictHintView>,
}

impl View for ConflictReport {
    type V = ConflictReportView;

    open spec fn view(&self) -> ConflictReportView {
        ConflictReportView {
            resolved: groups_view(self.resolved@),
            new_conflicts: groups_view(self.new_conflicts@),
            still_unresolved: self.still_unresolved,
            hint: match self.hint {
                Some(hint) => Some(hint@),
                None => None,
            },
        }
    }
}

/// Where the reporter stands.
#[derive(Debug)]
pub enum ReporterState {
    /// Nothing was asked yet.
    Idle,
    /// The conflicted commits on both sides were asked for.
    Evaluating,
    /// The roots among the conflicted commits that joined were asked for.
    FindingRoots { resolved: Vec<ConflictGroup>, new_conflicts: Vec<ConflictGroup>, added: usize },
    /// The reporter has finished or failed.
    Finished,
}

pub enum ReporterStateView {
    Idle,
    Evaluating,
    FindingRoots {
        resolved: Seq<ConflictGroupView>,
        new_conflicts: Seq<ConflictGroupView>,
        added: usize,
    },
    Finished,
}

impl View for ReporterState {
    type V = ReporterStateView;

    open spec fn view(&self) -> ReporterStateView {
        match self {
            ReporterState::Idle => ReporterStateView::Idle,
            ReporterState::Evaluating => ReporterStateView::Evaluating,
            ReporterState::FindingRoots { resolved, new_conflicts, added } => {
                ReporterStateView::FindingRoots {
                    resolved: groups_view(resolved@),
                    new_conflicts: groups_view(new_conflicts@),
                    added: *added,
                }
            },
            ReporterState::Finished => ReporterStateView::Finished,
        }
    }
}

/// What the caller reports back.
#[derive(Debug)]
pub enum ReporterEvent {
    /// The heads of the view before the transaction and after it.
    Start { old_heads: Vec<CommitId>, new_heads: Vec<CommitId> },
    /// The commits of the two ranges that were asked for.
    Conflicts { removed: Vec<Commit>, added: Vec<Commit> },
    /// The roots that were asked for.
    Roots(Vec<Commit>),
}

pub enum ReporterEventView {
    Start { old_heads: Seq<Seq<u8>>, new_heads: Seq<Seq<u8>> },
    Conflicts { removed: Seq<CommitView>, added: Seq<CommitView> },
    Roots(Seq<CommitView>),
}

impl View for ReporterEvent {
    type V = ReporterEventView;

    open spec fn view(&self) -> ReporterEventView {
        match self {
            ReporterEvent::Start { old_heads, new_heads } => ReporterEventView::Start {
                old_heads: commit_ids_view(old_heads@),
                new_heads: commit_ids_view(new_heads@),
            },
            ReporterEvent::Conflicts { removed, added } => ReporterEventView::Conflicts {
                removed: commits_view(removed@),
                added: commits_view(added@),
            },
            ReporterEvent::Roots(roots) => ReporterEventView::Roots(commits_view(roots@)),
        }
    }
}

/// What the caller is asked to do next.
#[derive(Debug, PartialEq, Eq)]
pub enum ReporterAction {
    /// Find the conflicted commits of the two ranges, in the repository
    /// after the transaction.
    EvaluateConflicts { removed: ConflictRange, added: ConflictRange },
    /// Find, among these commits, those that have none of them as an
    /// ancestor.
    FindRoots { commits: Vec<CommitId> },
    /// Show the report.
    Finish(ConflictReport),
    /// An event came that the reporter did not wait for.
    Fail,
}

pub enum ReporterActionView {
    EvaluateConflicts { removed: ConflictRangeView, added: ConflictRangeView },
    FindRoots { commits: Seq<Seq<u8>> },
    Finish(ConflictReportView),
    Fail,
}

impl View for ReporterAction {
    type V = ReporterActionView;

    open spec fn view(&self) -> ReporterActionView {
        match self {
            ReporterAction::EvaluateConflicts { removed, added } => {
                ReporterActionView::EvaluateConflicts { removed: removed@, added: added@ }
            },
            ReporterAction::FindRoots { commits } => ReporterActionView::FindRoots {
                commits: commit_ids_view(commits@),
            },
            ReporterAction::Finish(report) => ReporterActionView::Finish(report@),
            ReporterAction::Fail => ReporterActionView::Fail,
        }
    }
}

/// Whether the user is pointed at where to start resolving: conflicted
/// commits joined the repository, and some change is reported.
pub open spec fn spec_wants_hint(
    added: Seq<CommitView>,
    resolved: Seq<ConflictGroupView>,
    new_conflicts: Seq<ConflictGroupView>,
) -> bool {
    !(added.len() == 0 || (resolved.len() == 0 && new_conflicts.len() == 0))
}

/// The heading of the hint for this many conflicted commits that joined and
/// this many roots among them.
pub open spec fn spec_heading(added: usize, roots: int) -> HintHeading {
    if added == 1 {
        HintHeading::It
    } else if roots == 1 {
        HintHeading::FirstOne
    } else {
        HintHeading::OneOfFirstOnes
    }
}

/// The step from a state on an event: the next state and what to do.
pub open spec fn spec_step(state: ReporterStateView, event: ReporterEventView) -> (
    ReporterStateView,
    ReporterActionView,
) {
    match (state, event) {
        (ReporterStateView::Idle, ReporterEventView::Start { old_heads, new_heads }) => (
            ReporterStateView::Evaluating,
            ReporterActionView::EvaluateConflicts {
                removed: ConflictRangeView { roots: new_heads, heads: old_heads },
                added: ConflictRangeView { roots: old_heads, heads: new_heads },
            },
        ),
        (ReporterStateView::Evaluating, ReporterEventView::Conflicts { removed, added }) => {
            let resolved = spec_resolved(removed, added);
            let new_conflicts = spec_new_conflicts(removed, added);
            if spec_wants_hint(added, resolved, new_conflicts) {
                (
                    ReporterStateView::FindingRoots {
                        resolved,
                        new_conflicts,
                        added: added.len() as usize,
                    },
                    ReporterActionView::FindRoots { commits: ids_of_commits(added) },
                )
            } else {
                (
                    ReporterStateView::Finished,
                    ReporterActionView::Finish(
                        ConflictReportView {
                            resolved,
                            new_conflicts,
                            still_unresolved: false,
                            hint: None,
                        },
                    ),
                )
            }
        },
        (
            ReporterStateView::FindingRoots { resolved, new_conflicts, added },
            ReporterEventView::Roots(roots),
        ) => (
            ReporterStateView::Finished,
            ReporterActionView::Finish(
                ConflictReportView {
                    resolved,
                    new_conflicts,
                    still_unresolved: new_conflicts.len() == 0,
                    hint: if roots.len() > 0 {
                        Some(
                            ConflictHintView {
                                heading: spec_heading(added, roots.len() as int),
                                roots,
                            },
                        )
                    } else {
                        None
                    },
                },
            ),
        ),
        _ => (ReporterStateView::Finished, ReporterActionView::Fail),
    }
}

/// Decides, step by step, what is reported of the conflicts after a
/// transaction.
#[derive(Debug)]
pub struct ConflictReporter {
    state: ReporterState,
}

impl View for ConflictReporter {
    type V = ReporterStateView;

    closed spec fn view(&self) -> ReporterStateView {
        self.state@
    }
}

impl ConflictReporter {
    /// A reporter that was asked nothing yet.
    pub fn new() -> (reporter: Self)
        ensures
            reporter@ == ReporterStateView::Idle,
    {
        ConflictReporter { state: ReporterState::Idle }
    }

    /// Whether the reporter has finished or failed.
    pub fn is_finished(&self) -> (finished: bool)
        ensures
            finished == (self@ is Finished),
    {
        match &self.state {
            ReporterState::Finished => true,
            _ => false,
        }
    }

    fn unexpected() -> (next: (ConflictReporter, ReporterAction))
        ensures
            next.0@ == ReporterStateView::Finished,
            next.1@ == ReporterActionView::Fail,
    {
        (ConflictReporter { state: ReporterState::Finished }, ReporterAction::Fail)
    }

    /// Takes what came of the last action and says what to do next.
    pub fn step(self, event: ReporterEvent) -> (next: (ConflictReporter, ReporterAction))
        ensures
            (next.0@, next.1@) == spec_step(self@, event@),
    {
        match self.state {
            ReporterState::Idle => match event {
                ReporterEvent::Start { old_heads, new_heads } => {
                    let removed = ConflictRange {
                        roots: clone_commit_ids(&new_heads),
                        heads: clone_commit_ids(&old_heads),
                    };
                    let added = ConflictRange { roots: old_heads, heads: new_heads };
                    (
                        ConflictReporter { state: ReporterState::Evaluating },
                        ReporterAction::EvaluateConflicts { removed, added },
                    )
                },
                _ => Self::unexpected(),
            },
            ReporterState::Evaluating => match event {
                ReporterEvent::Conflicts { removed, added } => {
                    let delta = conflict_delta(&removed, &added);
                    let resolved = delta.resolved;
                    let new_conflicts = delta.new_conflicts;
                    if !(added.len() == 0 || (resolved.len() == 0 && new_conflicts.len() == 0)) {
                        let commits = commit_ids(&added);
                        (
                            ConflictReporter {
                                state: ReporterState::FindingRoots {
                                    resolved,
                                    new_conflicts,
                                    added: added.len(),
                                },
                            },
                            ReporterAction::FindRoots { commits },
                        )
                    } else {
                        (
                            ConflictReporter { state: ReporterState::Finished },
                            ReporterAction::Finish(
                                ConflictReport {
                                    resolved,
                                    new_conflicts,
                                    still_unresolved: false,
                                    hint: None,
                                },
                            ),
                        )
                    }
                },
                _ => Self::unexpected(),
            },
            ReporterState::FindingRoots { resolved, new_conflicts, added } => match event {
                ReporterEvent::Roots(roots) => {
                    // If the user just resolved some conflict and squashed them in, there
                    // won't be any new conflicts: they are told that other conflicts remain.
                    let still_unresolved = new_conflicts.len() == 0;
                    let hint = if roots.len() > 0 {
                        let heading = if added == 1 {
                            HintHeading::It
                        } else if roots.len() == 1 {
                            HintHeading::FirstOne
                        } else {
                            HintHeading::OneOfFirstOnes
                        };
                        Some(ConflictHint { heading, roots })
                    } else {
                        None
                    };
                    (
                        ConflictReporter { state: ReporterState::Finished },
                        ReporterAction::Finish(
                            ConflictReport { resolved, new_conflicts, still_unresolved, hint },
                        ),
                    )
                },
                _ => Self::unexpected(),
            },
            ReporterState::Finished => Self::unexpected(),
        }
    }
}

/// The heading of a hint.
pub open spec fn spec_heading_text(heading: HintHeading) -> Seq<char> {
    match heading {
        HintHeading::It => "To resolve the conflicts, start by updating to it:\n"@,
        HintHeading::FirstOne => "To resolve the conflicts, start by updating to the first one:\n"@,
        HintHeading::OneOfFirstOnes => "To resolve the conflicts, start by updating to one of the first ones:\n"@,
    }
}

/// What follows the commands of a hint.
pub open spec fn spec_hint_footer() -> Seq<char> {
    "Then use `jj resolve`, or edit the conflict markers in the file directly.
Once the conflicts are resolved, you may want inspect the result with `jj diff`.
Then run `jj squash` to move the resolution into the conflicted commit.\n"@
}

/// The command that starts a new commit on top of a change.
pub open spec fn spec_hint_command(change_id: Seq<u8>) -> Seq<char> {
    "  jj new "@ + spec_reverse_hex(spec_hex(change_id).subrange(0, SHORT_HASH_LEN as int)) + "\n"@
}

/// The lines of a hint: the heading, one command for each root, and the
/// footer.
pub open spec fn spec_hint_lines(hint: ConflictHintView) -> Seq<Seq<char>> {
    seq![spec_heading_text(hint.heading)] + Seq::new(
        hint.roots.len(),
        |i: int| spec_hint_command(hint.roots[i].change_id),
    ) + seq![spec_hint_footer()]
}

/// Writes a hint out. The change of every root is named by its short hash,
/// for which its id must have six bytes or more.
pub fn hint_lines(hint: &ConflictHint) -> (lines: Vec<String>)
    requires
        forall|i: int| 0 <= i < hint.roots.len() ==> (#[trigger] hint.roots@[i])@.change_id.len() >= 6,
    ensures
        strings_view(lines@) == spec_hint_lines(hint@),
{
    let mut lines: Vec<String> = Vec::new();
    let heading = match hint.heading {
        HintHeading::It => "To resolve the conflicts, start by updating to it:\n",
        HintHeading::FirstOne => "To resolve the conflicts, start by updating to the first one:\n",
        HintHeading::OneOfFirstOnes => "To resolve the conflicts, start by updating to one of the first ones:\n",
    };
    lines.push(heading.to_owned());
    let ghost commands = Seq::new(
        hint@.roots.len(),
        |i: int| spec_hint_command(hint@.roots[i].change_id),
    );
    let ghost head = seq![spec_heading_text(hint@.heading)];
    assert(strings_view(lines@) =~= head + commands.take(0));
    let mut i: usize = 0;
    while i < hint.roots.len()
        invariant
            i <= hint.roots.len(),
            forall|j: int|
                0 <= j < hint.roots.len() ==> (#[trigger] hint.roots@[j])@.change_id.len() >= 6,
            commands == Seq::new(
                hint@.roots.len(),
                |i: int| spec_hint_command(hint@.roots[i].change_id),
            ),
            head == seq![spec_heading_text(hint@.heading)],
            strings_view(lines@) == head + commands.take(i as int),
        decreases hint.roots.len() - i,
    {
        assert(hint.roots@[i as int]@.change_id.len() >= 6);
        let short = short_change_hash(&hint.roots[i].change_id);
        let mut command = glue("  jj new ", short.as_str());
        command.append("\n");
        assert(command@ =~= commands[i as int]);
        let ghost before = strings_view(lines@);
        lines.push(command);
        assert(strings_view(lines@) =~= before.push(commands[i as int]));
        assert(commands.take(i + 1) =~= commands.take(i as int).push(commands[i as int]));
        i += 1;
    }
    assert(commands.take(hint.roots.len() as int) =~= commands);
    let ghost before = strings_view(lines@);
    lines.push(
        "Then use `jj resolve`, or edit the conflict markers in the file directly.
Once the conflicts are resolved, you may want inspect the result with `jj diff`.
Then run `jj squash` to move the resolution into the conflicted commit.\n".to_owned(),
    );
    assert(strings_view(lines@) =~= before.push(spec_hint_footer()));
    lines
}

} // verus!
