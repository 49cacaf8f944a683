//! Whether a working copy has kept up with the repository.
//!
//! A working copy records the operation and the tree it was last brought in
//! line with. Held against the operation at which the repository was loaded,
//! the record is fresh, ahead of the repository, behind it, or on a branch
//! of the operation log that the repository never saw.

use crate::object_id::{OperationId, TreeId};
use crate::op_log::{
    adjacency, knows, log_wf, position_of, table_view, Operation, OperationLog, OperationView,
};
use vstd::prelude::*;

verus! {

/// What a working copy remembers of its last update: the operation it was
/// brought in line with and the tree that was then written out.
#[derive(Debug, PartialEq, Eq)]
pub struct WorkingCopyRecord {
    pub operation_id: OperationId,
    pub tree_id: TreeId,
}

pub struct WorkingCopyRecordView {
    pub operation_id: Seq<u8>,
    pub tree_id: Seq<u8>,
}

impl View for WorkingCopyRecord {
    type V = WorkingCopyRecordView;

    open spec fn view(&self) -> WorkingCopyRecordView {
        WorkingCopyRecordView { operation_id: self.operation_id@, tree_id: self.tree_id@ }
    }
}

impl Clone for WorkingCopyRecord {
    fn clone(&self) -> (copy: Self)
        ensures
            copy@ == self@,
    {
        WorkingCopyRecord {
            operation_id: self.operation_id.clone(),
            tree_id: self.tree_id.clone(),
        }
    }
}

/// Whether the working copy is stale or not.
#[derive(Debug, PartialEq, Eq)]
pub enum WorkingCopyFreshness {
    /// The working copy isn't stale, and no need to reload the repo.
    Fresh,
    /// The working copy was updated since we loaded the repo. The repo must be
    /// reloaded at the working copy's operation.
    Updated(Box<Operation>),
    /// The working copy is behind the latest operation.
    WorkingCopyStale,
    /// The working copy is a sibling of the latest operation.
    SiblingOperation,
}

/// A freshness as plain values.
pub enum FreshnessView {
    Fresh,
    Updated(OperationView),
    WorkingCopyStale,
    SiblingOperation,
}

impl View for WorkingCopyFreshness {
    type V = FreshnessView;

    open spec fn view(&self) -> FreshnessView {
        match self {
            WorkingCopyFreshness::Fresh => FreshnessView::Fresh,
            WorkingCopyFreshness::Updated(op) => FreshnessView::Updated(op@),
            WorkingCopyFreshness::WorkingCopyStale => FreshnessView::WorkingCopyStale,
            WorkingCopyFreshness::SiblingOperation => FreshnessView::SiblingOperation,
        }
    }
}

impl FreshnessView {
    /// Whether the working copy is not updated to the current operation.
    pub open spec fn is_stale(self) -> bool {
        self is WorkingCopyStale || self is SiblingOperation
    }
}

impl WorkingCopyFreshness {
    /// Returns true if the working copy is not updated to the current
    /// operation.
    pub fn is_stale(&self) -> (stale: bool)
        ensures
            stale == self@.is_stale(),
    {
        match self {
            WorkingCopyFreshness::Fresh | WorkingCopyFreshness::Updated(_) => false,
            WorkingCopyFreshness::WorkingCopyStale | WorkingCopyFreshness::SiblingOperation => true,
        }
    }
}

/// Why no freshness could be told.
#[derive(Debug, PartialEq, Eq)]
pub enum StalenessError {
    /// The operation log does not hold the operation with this id.
    OperationNotFound(OperationId),
    /// The two operations share no ancestor, which a log with one root
    /// excludes: the log is broken.
    UnrelatedOperations,
}

/// A staleness error as plain values.
pub enum StalenessErrorView {
    OperationNotFound(Seq<u8>),
    UnrelatedOperations,
}

impl View for StalenessError {
    type V = StalenessErrorView;

    open spec fn view(&self) -> StalenessErrorView {
        match self {
            StalenessError::OperationNotFound(id) => StalenessErrorView::OperationNotFound(id@),
            StalenessError::UnrelatedOperations => StalenessErrorView::UnrelatedOperations,
        }
    }
}

/// The node that `jj_lib::dag_walk::closest_common_node` finds for two sets
/// of start nodes in a graph whose nodes are the places of a table and whose
/// neighbours of a node are the entries of its row.
pub uninterp spec fn closest_common_node(
    neighbors: Seq<Seq<usize>>,
    set1: Seq<usize>,
    set2: Seq<usize>,
) -> Option<usize>;

/// Whether a list of places is a walk along the rows of a table: each place
/// but the first is an entry of the row of the place before it.
pub open spec fn is_walk(neighbors: Seq<Seq<usize>>, walk: Seq<usize>) -> bool {
    &&& walk.len() >= 1
    &&& forall|i: int| 0 <= i < walk.len() ==> (#[trigger] walk[i]) < neighbors.len()
    &&& forall|i: int|
        0 <= i < walk.len() - 1 ==> neighbors[walk[i] as int].contains(#[trigger] walk[i + 1])
}

/// Whether a place can be reached from another along the rows of a table,
/// in no step or more.
pub open spec fn reaches(neighbors: Seq<Seq<usize>>, from: usize, to: usize) -> bool {
    exists|walk: Seq<usize>|
        #![trigger is_walk(neighbors, walk)]
        is_walk(neighbors, walk) && walk.first() == from && walk.last() == to
}

/// The closest node that can be reached from both `a` and `b` along the rows
/// of the table.
///
/// Trusted: calls `jj_lib::dag_walk::closest_common_node` with the start sets
/// `[a]` and `[b]`, a node's own number as its id and its row as its
/// neighbours. The walk visits the two sides in turn, level by level, and
/// looks into hash sets only to ask whether an id was seen, so what it
/// returns depends on the table and the two starts alone. A node that it
/// returns is a start or an entry of a row, hence a place of the table. It
/// is taken from the work list of one side, which holds a start and what was
/// found in the rows of nodes visited from it, and its id was seen on the
/// other side: it can be reached from both starts.
#[verifier::external_body]
fn closest_common_position(table: &Vec<Vec<usize>>, a: usize, b: usize) -> (found: Option<usize>)
    requires
        a < table.len(),
        b < table.len(),
        forall|i: int, k: int|
            0 <= i < table.len() && 0 <= k < table[i].len() ==> #[trigger] table[i][k]
                < table.len(),
    ensures
        found == closest_common_node(table_view(table@), seq![a], seq![b]),
        found.is_some() ==> found.unwrap() < table.len(),
        found.is_some() ==> reaches(table_view(table@), a, found.unwrap()) && reaches(
            table_view(table@),
            b,
            found.unwrap(),
        ),
{
    jj_lib::dag_walk::closest_common_node(
        [a],
        [b],
        |i: &usize| *i,
        |i: &usize| table[*i].iter().copied(),
    )
}

/// The freshness of a working copy whose tree differs from the repository's,
/// given the closest common ancestor of its operation and the repository's.
pub open spec fn spec_classify(
    ancestor_id: Seq<u8>,
    repo_operation_id: Seq<u8>,
    wc_operation: OperationView,
) -> FreshnessView {
    if ancestor_id == repo_operation_id {
        FreshnessView::Updated(wc_operation)
    } else if ancestor_id == wc_operation.id {
        FreshnessView::WorkingCopyStale
    } else {
        FreshnessView::SiblingOperation
    }
}

/// Classifies a working copy whose tree differs from the repository's.
///
/// If the common ancestor is the repository's operation, the working copy
/// was updated since the repository was loaded. If it is the working copy's
/// operation, the repository has moved on without the working copy. If it is
/// neither, the two are on different branches of the log.
pub fn classify_by_ancestor(
    ancestor_id: &OperationId,
    repo_operation_id: &OperationId,
    wc_operation: &Operation,
) -> (freshness: WorkingCopyFreshness)
    ensures
        freshness@ == spec_classify(ancestor_id@, repo_operation_id@, wc_operation@),
{
    if ancestor_id.equals(repo_operation_id) {
        WorkingCopyFreshness::Updated(Box::new(wc_operation.clone()))
    } else if ancestor_id.equals(&wc_operation.id) {
        WorkingCopyFreshness::WorkingCopyStale
    } else {
        WorkingCopyFreshness::SiblingOperation
    }
}

/// What [`check_stale_working_copy`] returns.
pub open spec fn spec_check_stale(
    record_operation_id: Seq<u8>,
    record_tree_id: Seq<u8>,
    wc_commit_tree_id: Seq<u8>,
    repo_operation_id: Seq<u8>,
    log: Seq<OperationView>,
) -> Result<FreshnessView, StalenessErrorView> {
    if wc_commit_tree_id == record_tree_id {
        Ok(FreshnessView::Fresh)
    } else if !knows(log, record_operation_id) {
        Err(StalenessErrorView::OperationNotFound(record_operation_id))
    } else if !knows(log, repo_operation_id) {
        Err(StalenessErrorView::OperationNotFound(repo_operation_id))
    } else {
        let wc_place = position_of(log, record_operation_id);
        match closest_common_ancestor(log, record_operation_id, repo_operation_id) {
            None => Err(StalenessErrorView::UnrelatedOperations),
            Some(place) => Ok(
                spec_classify(log[place as int].id, repo_operation_id, log[wc_place]),
            ),
        }
    }
}

/// Whether the log holds both operations and the second can be reached from
/// the first by going from an operation to a parent, in no step or more.
pub open spec fn descends_from(log: Seq<OperationView>, operation_id: Seq<u8>, ancestor_id: Seq<u8>) -> bool {
    &&& knows(log, operation_id)
    &&& knows(log, ancestor_id)
    &&& reaches(
        adjacency(log),
        position_of(log, operation_id) as usize,
        position_of(log, ancestor_id) as usize,
    )
}

/// The view of a result of [`check_stale_working_copy`].
pub open spec fn outcome_view(outcome: Result<WorkingCopyFreshness, StalenessError>) -> Result<
    FreshnessView,
    StalenessErrorView,
> {
    match outcome {
        Ok(freshness) => Ok(freshness@),
        Err(error) => Err(error@),
    }
}

/// Holds the record of a working copy against the repository.
///
/// `wc_commit_tree_id` is the tree of the commit that the repository shows
/// as checked out in this workspace, `repo_operation_id` the operation at
/// which the repository was loaded. When the two trees agree the record is
/// fresh and the log is not consulted. Otherwise both operations are looked
/// up in the log and classified by their closest common ancestor.
///
/// A working copy that is found updated is at the repository's operation or
/// at a descendant of it. One that is found stale is at an ancestor of the
/// repository's operation, and not at that operation itself.
pub fn check_stale_working_copy(
    record: &WorkingCopyRecord,
    wc_commit_tree_id: &TreeId,
    repo_operation_id: &OperationId,
    log: &OperationLog,
) -> (outcome: Result<WorkingCopyFreshness, StalenessError>)
    requires
        log.wf(),
    ensures
        outcome_view(outcome) == spec_check_stale(
            record.operation_id@,
            record.tree_id@,
            wc_commit_tree_id@,
            repo_operation_id@,
            log@,
        ),
        outcome.is_ok() && outcome.unwrap()@ is Updated ==> descends_from(
            log@,
            record.operation_id@,
            repo_operation_id@,
        ),
        outcome.is_ok() && outcome.unwrap()@ is WorkingCopyStale ==> record.operation_id@
            != repo_operation_id@ && descends_from(
            log@,
            repo_operation_id@,
            record.operation_id@,
        ),
{
    if wc_commit_tree_id.equals(&record.tree_id) {
        return Ok(WorkingCopyFreshness::Fresh);
    }
    let wc_place = match log.position(&record.operation_id) {
        Some(place) => place,
        None => {
            return Err(StalenessError::OperationNotFound(record.operation_id.clone()));
        },
    };
    let repo_place = match log.position(repo_operation_id) {
        Some(place) => place,
        None => {
            return Err(StalenessError::OperationNotFound(repo_operation_id.clone()));
        },
    };
    let table = log.adjacency_table();
    match closest_common_position(&table, wc_place, repo_place) {
        None => Err(StalenessError::UnrelatedOperations),
        Some(place) => {
            let ancestor = log.get(place);
            proof {
                crate::op_log::lemma_position_unique(log@, place as int);
            }
            Ok(classify_by_ancestor(&ancestor.id, repo_operation_id, log.get(wc_place)))
        },
    }
}

/// The closest common ancestor that the log gives for two known operations.
pub open spec fn closest_common_ancestor(
    log: Seq<OperationView>,
    wc_operation_id: Seq<u8>,
    repo_operation_id: Seq<u8>,
) -> Option<usize> {
    closest_common_node(
        adjacency(log),
        seq![position_of(log, wc_operation_id) as usize],
        seq![position_of(log, repo_operation_id) as usize],
    )
}

/// On two operations of the log that have a common ancestor the check gives
/// exactly one of the four classes, and which one is settled by whether the
/// trees agree and by which of the two operations the closest common ancestor
/// is.
pub proof fn lemma_classification_is_total(
    record_operation_id: Seq<u8>,
    record_tree_id: Seq<u8>,
    wc_commit_tree_id: Seq<u8>,
    repo_operation_id: Seq<u8>,
    log: Seq<OperationView>,
)
    requires
        log_wf(log),
        knows(log, record_operation_id),
        knows(log, repo_operation_id),
        closest_common_ancestor(log, record_operation_id, repo_operation_id) is Some,
    ensures
        ({
            let outcome = spec_check_stale(
                record_operation_id,
                record_tree_id,
                wc_commit_tree_id,
                repo_operation_id,
                log,
            );
            let ancestor = log[closest_common_ancestor(
                log,
                record_operation_id,
                repo_operation_id,
            )->0 as int].id;
            let same_tree = wc_commit_tree_id == record_tree_id;
            &&& outcome is Ok
            &&& (outcome->Ok_0 is Fresh) <==> same_tree
            &&& (outcome->Ok_0 is Updated) <==> !same_tree && ancestor == repo_operation_id
            &&& (outcome->Ok_0 is WorkingCopyStale) <==> !same_tree && ancestor != repo_operation_id
                && ancestor == record_operation_id
            &&& (outcome->Ok_0 is SiblingOperation) <==> !same_tree && ancestor != repo_operation_id
                && ancestor != record_operation_id
            &&& outcome->Ok_0 is Updated ==> outcome->Ok_0->Updated_0.id == record_operation_id
        }),
{
    let wc_place = position_of(log, record_operation_id);
    assert(log[wc_place].id == record_operation_id);
}

/// The check is a function of what it is given: on the same record, trees,
/// operation and log it gives the same answer.
pub proof fn lemma_classification_is_deterministic(
    first: Result<WorkingCopyFreshness, StalenessError>,
    second: Result<WorkingCopyFreshness, StalenessError>,
    record_operation_id: Seq<u8>,
    record_tree_id: Seq<u8>,
    wc_commit_tree_id: Seq<u8>,
    repo_operation_id: Seq<u8>,
    log: Seq<OperationView>,
)
    requires
        outcome_view(first) == spec_check_stale(
            record_operation_id,
            record_tree_id,
            wc_commit_tree_id,
            repo_operation_id,
            log,
        ),
        outcome_view(second) == spec_check_stale(
            record_operation_id,
            record_tree_id,
            wc_commit_tree_id,
            repo_operation_id,
            log,
        ),
    ensures
        outcome_view(first) == outcome_view(second),
{
}

} // verus!
