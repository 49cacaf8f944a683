//! The operation log: an append-only directed acyclic graph of operations.
//!
//! An operation names its parents by their ids. The log only takes an
//! operation whose parents it already holds, so every operation stands after
//! its parents and the graph has no cycle.

use crate::object_id::OperationId;
use vstd::prelude::*;

verus! {

/// What an operation is, as plain values.
pub struct OperationView {
    pub id: Seq<u8>,
    pub parents: Seq<Seq<u8>>,
}

/// One node of the operation log: its id and the ids of its parents, none
/// for the root, one after an ordinary commit, two or more after a merge of
/// concurrent heads.
#[derive(Debug, PartialEq, Eq)]
pub struct Operation {
    pub id: OperationId,
    pub parents: Vec<OperationId>,
}

impl View for Operation {
    type V = OperationView;

    open spec fn view(&self) -> OperationView {
        OperationView { id: self.id@, parents: ids_view(self.parents@) }
    }
}

/// The byte strings of a list of ids.
pub open spec fn ids_view(ids: Seq<OperationId>) -> Seq<Seq<u8>> {
    Seq::new(ids.len(), |k: int| ids[k]@)
}

/// A fresh copy of a list of ids.
pub fn clone_ids(ids: &Vec<OperationId>) -> (copy: Vec<OperationId>)
    ensures
        ids_view(copy@) == ids_view(ids@),
{
    let mut copy: Vec<OperationId> = Vec::new();
    let mut k: usize = 0;
    while k < ids.len()
        invariant
            k <= ids.len(),
            copy.len() == k,
            forall|j: int| 0 <= j < k ==> copy@[j]@ == ids@[j]@,
        decreases ids.len() - k,
    {
        copy.push(ids[k].clone());
        k += 1;
    }
    assert(ids_view(copy@) =~= ids_view(ids@));
    copy
}

impl Operation {
    pub fn new(id: OperationId, parents: Vec<OperationId>) -> (op: Self)
        ensures
            op@.id == id@,
            op@.parents == ids_view(parents@),
    {
        Operation { id, parents }
    }

    pub fn id(&self) -> (id: &OperationId)
        ensures
            id@ == self@.id,
    {
        &self.id
    }

    pub fn parent_ids(&self) -> (parents: &Vec<OperationId>)
        ensures
            ids_view(parents@) == self@.parents,
    {
        &self.parents
    }
}

impl Clone for Operation {
    fn clone(&self) -> (copy: Self)
        ensures
            copy@ == self@,
    {
        Operation { id: self.id.clone(), parents: clone_ids(&self.parents) }
    }
}

/// Whether some operation of the list has the given id.
pub open spec fn knows(ops: Seq<OperationView>, id: Seq<u8>) -> bool {
    exists|i: int| 0 <= i < ops.len() && #[trigger] ops[i].id == id
}

/// The place of the operation with the given id, where there is one.
pub open spec fn position_of(ops: Seq<OperationView>, id: Seq<u8>) -> int {
    choose|i: int| 0 <= i < ops.len() && #[trigger] ops[i].id == id
}

/// A well-formed log: no id occurs twice, and every parent of an operation
/// stands earlier in the list than the operation itself.
pub open spec fn log_wf(ops: Seq<OperationView>) -> bool {
    &&& forall|i: int, j: int| 0 <= i < j < ops.len() ==> #[trigger] ops[i].id != #[trigger] ops[j].id
    &&& forall|i: int, k: int|
        0 <= i < ops.len() && 0 <= k < ops[i].parents.len() ==> knows(
            ops.subrange(0, i),
            #[trigger] ops[i].parents[k],
        )
}

/// The graph of a log by positions: for each operation, the places of its
/// parents, in the order in which it names them.
pub open spec fn adjacency(ops: Seq<OperationView>) -> Seq<Seq<usize>> {
    Seq::new(
        ops.len(),
        |i: int|
            Seq::new(ops[i].parents.len(), |k: int| position_of(ops, ops[i].parents[k]) as usize),
    )
}

/// In a well-formed log an id has one place only.
pub proof fn lemma_position_unique(ops: Seq<OperationView>, i: int)
    requires
        log_wf(ops),
        0 <= i < ops.len(),
    ensures
        knows(ops, ops[i].id),
        position_of(ops, ops[i].id) == i,
{
    let p = position_of(ops, ops[i].id);
    assert(ops[i].id == ops[i].id);
    if p < i {
        assert(ops[p].id != ops[i].id);
    } else if i < p {
        assert(ops[i].id != ops[p].id);
    }
}

/// In a well-formed log every parent is known and stands before its child.
pub proof fn lemma_parent_precedes(ops: Seq<OperationView>, i: int, k: int)
    requires
        log_wf(ops),
        0 <= i < ops.len(),
        0 <= k < ops[i].parents.len(),
    ensures
        knows(ops, ops[i].parents[k]),
        0 <= position_of(ops, ops[i].parents[k]) < i,
{
    let pid = ops[i].parents[k];
    let earlier = ops.subrange(0, i);
    assert(knows(earlier, pid));
    let j = choose|j: int| 0 <= j < earlier.len() && #[trigger] earlier[j].id == pid;
    assert(ops[j].id == pid);
    lemma_position_unique(ops, j);
}

/// A well-formed log that holds anything starts with a root: an operation
/// without parents.
pub proof fn lemma_first_is_root(ops: Seq<OperationView>)
    requires
        log_wf(ops),
        ops.len() > 0,
    ensures
        ops[0].parents.len() == 0,
{
    if ops[0].parents.len() > 0 {
        lemma_parent_precedes(ops, 0, 0);
    }
}

/// Why the log refused an operation.
#[derive(Debug, PartialEq, Eq)]
pub enum OpLogError {
    /// The log already holds an operation with this id.
    DuplicateOperation,
    /// The operation names a parent that the log does not hold.
    UnknownParent,
}

/// The operations known to a session, parents before children.
#[derive(Debug)]
pub struct OperationLog {
    ops: Vec<Operation>,
}

impl View for OperationLog {
    type V = Seq<OperationView>;

    closed spec fn view(&self) -> Seq<OperationView> {
        Seq::new(self.ops.len() as nat, |i: int| self.ops[i]@)
    }
}

impl OperationLog {
    /// The invariant of the log: see [`log_wf`].
    pub open spec fn wf(&self) -> bool {
        log_wf(self@)
    }

    /// A log that holds nothing.
    pub fn new() -> (log: Self)
        ensures
            log@.len() == 0,
            log.wf(),
    {
        OperationLog { ops: Vec::new() }
    }

    /// The number of operations held.
    pub fn len(&self) -> (n: usize)
        ensures
            n == self@.len(),
    {
        self.ops.len()
    }

    /// The operation at a place.
    pub fn get(&self, i: usize) -> (op: &Operation)
        requires
            i < self@.len(),
        ensures
            op@ == self@[i as int],
    {
        &self.ops[i]
    }

    /// The place of the operation with the given id.
    pub fn position(&self, id: &OperationId) -> (place: Option<usize>)
        requires
            self.wf(),
        ensures
            place.is_some() == knows(self@, id@),
            place.is_some() ==> place.unwrap() < self@.len() && place.unwrap() == position_of(
                self@,
                id@,
            ) && self@[place.unwrap() as int].id == id@,
    {
        let mut i: usize = 0;
        while i < self.ops.len()
            invariant
                self.wf(),
                i <= self.ops.len(),
                self@.len() == self.ops.len(),
                forall|j: int| 0 <= j < i ==> self@[j].id != id@,
            decreases self.ops.len() - i,
        {
            if self.ops[i].id.equals(id) {
                proof {
                    lemma_position_unique(self@, i as int);
                }
                return Some(i);
            }
            i += 1;
        }
        None
    }

    /// Whether the log holds an operation with the given id.
    pub fn contains(&self, id: &OperationId) -> (known: bool)
        requires
            self.wf(),
        ensures
            known == knows(self@, id@),
    {
        self.position(id).is_some()
    }

    /// Appends an operation whose parents the log already holds.
    ///
    /// The log is left as it was when the id is taken or a parent is unknown.
    pub fn insert(&mut self, op: Operation) -> (outcome: Result<usize, OpLogError>)
        requires
            old(self).wf(),
        ensures
            final(self).wf(),
            knows(old(self)@, op@.id) ==> outcome == Err::<usize, OpLogError>(
                OpLogError::DuplicateOperation,
            ),
            !knows(old(self)@, op@.id) && !all_known(old(self)@, op@.parents) ==> outcome == Err::<
                usize,
                OpLogError,
            >(OpLogError::UnknownParent),
            outcome.is_err() ==> final(self)@ == old(self)@,
            outcome.is_ok() ==> final(self)@ == old(self)@.push(op@) && outcome.unwrap() == old(
                self,
            )@.len(),
            outcome.is_ok() == (!knows(old(self)@, op@.id) && all_known(old(self)@, op@.parents)),
    {
        if self.position(&op.id).is_some() {
            return Err(OpLogError::DuplicateOperation);
        }
        let mut k: usize = 0;
        while k < op.parents.len()
            invariant
                self.wf(),
                self@ == old(self)@,
                !knows(self@, op@.id),
                k <= op.parents.len(),
                op@.parents.len() == op.parents.len(),
                forall|j: int| 0 <= j < k ==> knows(self@, #[trigger] op@.parents[j]),
            decreases op.parents.len() - k,
        {
            if self.position(&op.parents[k]).is_none() {
                assert(!knows(self@, op@.parents[k as int]));
                return Err(OpLogError::UnknownParent);
            }
            k += 1;
        }
        let ghost before = self@;
        let ghost added = op@;
        let place = self.ops.len();
        self.ops.push(op);
        proof {
            assert(self@ =~= before.push(added));
            assert forall|i: int, j: int| 0 <= i < j < self@.len() implies #[trigger] self@[i].id
                != #[trigger] self@[j].id by {
                if j == before.len() {
                    assert(before[i].id != added.id);
                }
            }
            assert forall|i: int, k: int|
                0 <= i < self@.len() && 0 <= k < self@[i].parents.len() implies knows(
                self@.subrange(0, i),
                #[trigger] self@[i].parents[k],
            ) by {
                if i == before.len() {
                    assert(self@.subrange(0, i) =~= before);
                } else {
                    assert(self@.subrange(0, i) =~= before.subrange(0, i));
                }
            }
        }
        Ok(place)
    }
}

/// The rows of a table of positions, as plain values.
pub open spec fn table_view(table: Seq<Vec<usize>>) -> Seq<Seq<usize>> {
    Seq::new(table.len(), |i: int| table[i]@)
}

impl OperationLog {
    /// The places of the parents of the operation at a place.
    pub fn parent_positions(&self, i: usize) -> (places: Vec<usize>)
        requires
            self.wf(),
            i < self@.len(),
        ensures
            places@ == adjacency(self@)[i as int],
            forall|k: int| 0 <= k < places.len() ==> places[k] < i,
    {
        let op = &self.ops[i];
        let mut places: Vec<usize> = Vec::new();
        let mut k: usize = 0;
        while k < op.parents.len()
            invariant
                self.wf(),
                i < self@.len(),
                op@ == self@[i as int],
                op@.parents.len() == op.parents.len(),
                k <= op.parents.len(),
                places.len() == k,
                forall|j: int| 0 <= j < k ==> places[j] == position_of(self@, op@.parents[j]),
                forall|j: int| 0 <= j < k ==> places[j] < i,
            decreases op.parents.len() - k,
        {
            proof {
                lemma_parent_precedes(self@, i as int, k as int);
            }
            let place = self.position(&op.parents[k]).unwrap();
            places.push(place);
            k += 1;
        }
        assert(places@ =~= adjacency(self@)[i as int]);
        places
    }

    /// The graph of the log by positions.
    pub fn adjacency_table(&self) -> (table: Vec<Vec<usize>>)
        requires
            self.wf(),
        ensures
            table_view(table@) == adjacency(self@),
            table.len() == self@.len(),
            forall|i: int, k: int|
                0 <= i < table.len() && 0 <= k < table[i].len() ==> #[trigger] table[i][k] < i,
    {
        let mut table: Vec<Vec<usize>> = Vec::new();
        let mut i: usize = 0;
        while i < self.ops.len()
            invariant
                self.wf(),
                self@.len() == self.ops.len(),
                i <= self.ops.len(),
                table.len() == i,
                forall|j: int| 0 <= j < i ==> (#[trigger] table[j])@ == adjacency(self@)[j],
                forall|j: int, k: int|
                    0 <= j < i && 0 <= k < table[j].len() ==> #[trigger] table[j][k] < j,
            decreases self.ops.len() - i,
        {
            let row = self.parent_positions(i);
            table.push(row);
            i += 1;
        }
        assert(table_view(table@) =~= adjacency(self@));
        table
    }
}

/// Whether the list holds an operation for each of the given ids.
pub open spec fn all_known(ops: Seq<OperationView>, ids: Seq<Seq<u8>>) -> bool {
    forall|k: int| 0 <= k < ids.len() ==> knows(ops, #[trigger] ids[k])
}

} // verus!
