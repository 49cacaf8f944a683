//! Which operation a session acts on.
//!
//! A session either names an operation or asks for the current one. The
//! current one is the single head of the operation log. When concurrent
//! writers have left several heads, they are merged into one new operation:
//! the first head is the base of a transaction, every other head is merged
//! into it in turn, each merge followed by a rebase of the descendants of what
//! it rewrote, and the commit has all the heads as its parents.
//!
//! Reading heads, merging and committing are the work of the operation store.
//! [`HeadResolver`] decides what is done next: the caller performs each
//! [`ResolverAction`] and hands back what came of it as a [`ResolverEvent`],
//! and stops at the first failure of that work.

use crate::command_error::{
    internal_error, internal_error_with_message, CommandError, CommandErrorView, ErrorChain,
    ErrorChainView,
};
use crate::object_id::OperationId;
use crate::op_log::{ids_view, Operation, OperationView};
use crate::text::str_equals;
use vstd::prelude::*;
use vstd::string::*;

verus! {

/// The operations of a list, as plain values.
pub open spec fn ops_view(ops: Seq<Operation>) -> Seq<OperationView> {
    Seq::new(ops.len(), |i: int| ops[i]@)
}

/// The ids of a list of operations.
pub open spec fn ids_of(ops: Seq<OperationView>) -> Seq<Seq<u8>> {
    Seq::new(ops.len(), |i: int| ops[i].id)
}

/// The description under which merged heads are committed.
pub open spec fn merge_description() -> Seq<char> {
    "resolve concurrent operations"@
}

/// The operation that a session asks for.
#[derive(Debug, PartialEq, Eq)]
pub enum OperationRef {
    /// The current head of the operation log, written `@`.
    Current,
    /// An operation named by a prefix of its id or by an expression.
    Explicit(String),
}

pub enum OperationRefView {
    Current,
    Explicit(Seq<char>),
}

impl View for OperationRef {
    type V = OperationRefView;

    open spec fn view(&self) -> OperationRefView {
        match self {
            OperationRef::Current => OperationRefView::Current,
            OperationRef::Explicit(name) => OperationRefView::Explicit(name@),
        }
    }
}

impl OperationRef {
    /// Reads the value of the `--at-operation` option.
    pub fn parse(at_operation: &str) -> (target: OperationRef)
        ensures
            at_operation@ == "@"@ ==> target@ == OperationRefView::Current,
            at_operation@ != "@"@ ==> target@ == OperationRefView::Explicit(at_operation@),
    {
        if str_equals(at_operation, "@") {
            OperationRef::Current
        } else {
            OperationRef::Explicit(at_operation.to_owned())
        }
    }

    /// Whether the session is loaded at the head of the operation log.
    pub fn is_current(&self) -> (current: bool)
        ensures
            current == (self@ is Current),
    {
        match self {
            OperationRef::Current => true,
            OperationRef::Explicit(_) => false,
        }
    }
}

/// Why no operation could be resolved.
#[derive(Debug, PartialEq, Eq, Structural, Clone, Copy)]
pub enum OpHeadResolutionError {
    /// The operation log has no head: the repository is corrupt.
    NoHeads,
    /// The merge was committed with other parents than the heads it merged.
    UnexpectedParents,
    /// An event came that the resolver did not wait for.
    UnexpectedEvent,
}

/// The error that the user is shown when no operation could be resolved.
pub open spec fn spec_resolution_command_error(error: OpHeadResolutionError) -> CommandErrorView {
    match error {
        OpHeadResolutionError::NoHeads => CommandErrorView::InternalError(
            ErrorChainView {
                message: "Corrupt repository"@,
                sources: seq!["Operation log has no heads"@],
            },
        ),
        OpHeadResolutionError::UnexpectedParents => CommandErrorView::InternalError(
            ErrorChainView {
                message: "Corrupt repository"@,
                sources: seq!["Merged operation has unexpected parents"@],
            },
        ),
        OpHeadResolutionError::UnexpectedEvent => CommandErrorView::InternalError(
            ErrorChainView { message: "unexpected event"@, sources: Seq::empty() },
        ),
    }
}

impl OpHeadResolutionError {
    /// The error to show to the user: an internal error, since none of
    /// these is the user's to mend.
    pub fn into_command_error(self) -> (error: CommandError)
        ensures
            error@ == spec_resolution_command_error(self),
    {
        match self {
            OpHeadResolutionError::NoHeads => {
                let source = ErrorChain::new("Operation log has no heads");
                let error = internal_error_with_message("Corrupt repository", source);
                assert(source@.wrapped("Corrupt repository"@).sources =~= seq![
                    "Operation log has no heads"@,
                ]);
                error
            },
            OpHeadResolutionError::UnexpectedParents => {
                let source = ErrorChain::new("Merged operation has unexpected parents");
                let error = internal_error_with_message("Corrupt repository", source);
                assert(source@.wrapped("Corrupt repository"@).sources =~= seq![
                    "Merged operation has unexpected parents"@,
                ]);
                error
            },
            OpHeadResolutionError::UnexpectedEvent => internal_error(
                ErrorChain::new("unexpected event"),
            ),
        }
    }
}

/// Where the resolver stands.
#[derive(Debug)]
pub enum ResolverState {
    /// Nothing was asked yet.
    Idle,
    /// The heads of the operation log were asked for.
    ReadingHeads,
    /// The lookup of a named operation was asked for.
    ResolvingExplicit,
    /// A transaction on the first head was asked for.
    LoadingBase { heads: Vec<Operation> },
    /// The merge of `heads[index]` was asked for; `rebased` holds the count
    /// of rebased commits for each head merged before it.
    Merging { heads: Vec<Operation>, index: usize, rebased: Vec<usize> },
    /// The commit of the merge was asked for.
    Committing { heads: Vec<Operation>, rebased: Vec<usize> },
    /// The resolver has finished or failed.
    Finished,
}

pub enum ResolverStateView {
    Idle,
    ReadingHeads,
    ResolvingExplicit,
    LoadingBase { heads: Seq<OperationView> },
    Merging { heads: Seq<OperationView>, index: int, rebased: Seq<usize> },
    Committing { heads: Seq<OperationView>, rebased: Seq<usize> },
    Finished,
}

impl View for ResolverState {
    type V = ResolverStateView;

    open spec fn view(&self) -> ResolverStateView {
        match self {
            ResolverState::Idle => ResolverStateView::Idle,
            ResolverState::ReadingHeads => ResolverStateView::ReadingHeads,
            ResolverState::ResolvingExplicit => ResolverStateView::ResolvingExplicit,
            ResolverState::LoadingBase { heads } => ResolverStateView::LoadingBase {
                heads: ops_view(heads@),
            },
            ResolverState::Merging { heads, index, rebased } => ResolverStateView::Merging {
                heads: ops_view(heads@),
                index: *index as int,
                rebased: rebased@,
            },
            ResolverState::Committing { heads, rebased } => ResolverStateView::Committing {
                heads: ops_view(heads@),
                rebased: rebased@,
            },
            ResolverState::Finished => ResolverStateView::Finished,
        }
    }
}

impl ResolverStateView {
    /// A merge takes two heads or more; while `heads[index]` is merged, one
    /// count is held for each head merged before it, and at the commit one
    /// for each head but the base.
    pub open spec fn wf(self) -> bool {
        match self {
            ResolverStateView::LoadingBase { heads } => heads.len() >= 2,
            ResolverStateView::Merging { heads, index, rebased } => 1 <= index < heads.len()
                && rebased.len() == index - 1,
            ResolverStateView::Committing { heads, rebased } => heads.len() >= 2 && rebased.len()
                == heads.len() - 1,
            _ => true,
        }
    }
}

/// What the caller reports back.
#[derive(Debug)]
pub enum ResolverEvent {
    /// The session asks for this operation.
    Start(OperationRef),
    /// The heads of the operation log, in the order in which the store gave
    /// them.
    Heads(Vec<Operation>),
    /// The named operation was found.
    Resolved(Operation),
    /// The transaction on the first head is open.
    BaseLoaded,
    /// The head was merged and the descendants rebased.
    Merged { num_rebased: usize },
    /// The merge was committed as this operation.
    Committed(Operation),
}

pub enum ResolverEventView {
    Start(OperationRefView),
    Heads(Seq<OperationView>),
    Resolved(OperationView),
    BaseLoaded,
    Merged { num_rebased: usize },
    Committed(OperationView),
}

impl View for ResolverEvent {
    type V = ResolverEventView;

    open spec fn view(&self) -> ResolverEventView {
        match self {
            ResolverEvent::Start(target) => ResolverEventView::Start(target@),
            ResolverEvent::Heads(heads) => ResolverEventView::Heads(ops_view(heads@)),
            ResolverEvent::Resolved(op) => ResolverEventView::Resolved(op@),
            ResolverEvent::BaseLoaded => ResolverEventView::BaseLoaded,
            ResolverEvent::Merged { num_rebased } => ResolverEventView::Merged {
                num_rebased: *num_rebased,
            },
            ResolverEvent::Committed(op) => ResolverEventView::Committed(op@),
        }
    }
}

/// What the caller is asked to do next.
#[derive(Debug, PartialEq, Eq)]
pub enum ResolverAction {
    /// Read the heads of the operation log.
    ReadHeads,
    /// Look the named operation up in the operation log, without merging.
    ResolveExplicit(String),
    /// Tell the user that concurrent modification is being resolved, load
    /// the repository at `base` and open a transaction on it.
    StartMerge { base: Operation },
    /// Merge `head` into the transaction, then rebase the descendants of the
    /// commits that the merge rewrote.
    MergeHead { head: Operation },
    /// Commit the transaction, without publishing it, as an operation with
    /// these parents.
    Commit { parents: Vec<OperationId>, description: String },
    /// Load this operation. `rebased` holds, for each head that was merged,
    /// the number of commits rebased after its merge.
    Finish { operation: Operation, rebased: Vec<usize> },
    /// Give up.
    Fail(OpHeadResolutionError),
}

pub enum ResolverActionView {
    ReadHeads,
    ResolveExplicit(Seq<char>),
    StartMerge { base: OperationView },
    MergeHead { head: OperationView },
    Commit { parents: Seq<Seq<u8>>, description: Seq<char> },
    Finish { operation: OperationView, rebased: Seq<usize> },
    Fail(OpHeadResolutionError),
}

impl View for ResolverAction {
    type V = ResolverActionView;

    open spec fn view(&self) -> ResolverActionView {
        match self {
            ResolverAction::ReadHeads => ResolverActionView::ReadHeads,
            ResolverAction::ResolveExplicit(name) => ResolverActionView::ResolveExplicit(name@),
            ResolverAction::StartMerge { base } => ResolverActionView::StartMerge { base: base@ },
            ResolverAction::MergeHead { head } => ResolverActionView::MergeHead { head: head@ },
            ResolverAction::Commit { parents, description } => ResolverActionView::Commit {
                parents: ids_view(parents@),
                description: description@,
            },
            ResolverAction::Finish { operation, rebased } => ResolverActionView::Finish {
                operation: operation@,
                rebased: rebased@,
            },
            ResolverAction::Fail(error) => ResolverActionView::Fail(*error),
        }
    }
}

/// The step from a state on an event: the next state and what to do.
pub open spec fn spec_step(state: ResolverStateView, event: ResolverEventView) -> (
    ResolverStateView,
    ResolverActionView,
) {
    match (state, event) {
        (ResolverStateView::Idle, ResolverEventView::Start(OperationRefView::Current)) => (
            ResolverStateView::ReadingHeads,
            ResolverActionView::ReadHeads,
        ),
        (ResolverStateView::Idle, ResolverEventView::Start(OperationRefView::Explicit(name))) => (
            ResolverStateView::ResolvingExplicit,
            ResolverActionView::ResolveExplicit(name),
        ),
        (ResolverStateView::ResolvingExplicit, ResolverEventView::Resolved(operation)) => (
            ResolverStateView::Finished,
            ResolverActionView::Finish { operation, rebased: Seq::empty() },
        ),
        (ResolverStateView::ReadingHeads, ResolverEventView::Heads(heads)) => {
            if heads.len() == 0 {
                (
                    ResolverStateView::Finished,
                    ResolverActionView::Fail(OpHeadResolutionError::NoHeads),
                )
            } else if heads.len() == 1 {
                (
                    ResolverStateView::Finished,
                    ResolverActionView::Finish { operation: heads[0], rebased: Seq::empty() },
                )
            } else {
                (
                    ResolverStateView::LoadingBase { heads },
                    ResolverActionView::StartMerge { base: heads[0] },
                )
            }
        },
        (ResolverStateView::LoadingBase { heads }, ResolverEventView::BaseLoaded) => (
            ResolverStateView::Merging { heads, index: 1, rebased: Seq::empty() },
            ResolverActionView::MergeHead { head: heads[1] },
        ),
        (
            ResolverStateView::Merging { heads, index, rebased },
            ResolverEventView::Merged { num_rebased },
        ) => {
            if index + 1 < heads.len() {
                (
                    ResolverStateView::Merging {
                        heads,
                        index: index + 1,
                        rebased: rebased.push(num_rebased),
                    },
                    ResolverActionView::MergeHead { head: heads[index + 1] },
                )
            } else {
                (
                    ResolverStateView::Committing { heads, rebased: rebased.push(num_rebased) },
                    ResolverActionView::Commit {
                        parents: ids_of(heads),
                        description: merge_description(),
                    },
                )
            }
        },
        (ResolverStateView::Committing { heads, rebased }, ResolverEventView::Committed(operation)) => {
            if operation.parents.to_set() == ids_of(heads).to_set() {
                (ResolverStateView::Finished, ResolverActionView::Finish { operation, rebased })
            } else {
                (
                    ResolverStateView::Finished,
                    ResolverActionView::Fail(OpHeadResolutionError::UnexpectedParents),
                )
            }
        },
        _ => (
            ResolverStateView::Finished,
            ResolverActionView::Fail(OpHeadResolutionError::UnexpectedEvent),
        ),
    }
}

/// Whether a list of ids holds the given id.
pub fn holds_id(ids: &Vec<OperationId>, id: &OperationId) -> (found: bool)
    ensures
        found == ids_view(ids@).contains(id@),
{
    let mut k: usize = 0;
    while k < ids.len()
        invariant
            k <= ids.len(),
            forall|j: int| 0 <= j < k ==> ids_view(ids@)[j] != id@,
        decreases ids.len() - k,
    {
        if ids[k].equals(id) {
            assert(ids_view(ids@)[k as int] == id@);
            return true;
        }
        k += 1;
    }
    false
}

/// Whether every id of the first list occurs in the second.
pub fn ids_within(a: &Vec<OperationId>, b: &Vec<OperationId>) -> (within: bool)
    ensures
        within == (forall|x: Seq<u8>| ids_view(a@).contains(x) ==> ids_view(b@).contains(x)),
{
    let mut k: usize = 0;
    while k < a.len()
        invariant
            k <= a.len(),
            forall|j: int| 0 <= j < k ==> ids_view(b@).contains(#[trigger] ids_view(a@)[j]),
        decreases a.len() - k,
    {
        if !holds_id(b, &a[k]) {
            assert(ids_view(a@).contains(ids_view(a@)[k as int]));
            return false;
        }
        k += 1;
    }
    true
}

/// Whether two lists hold the same ids, whatever their order and however
/// often each occurs.
pub fn same_id_set(a: &Vec<OperationId>, b: &Vec<OperationId>) -> (same: bool)
    ensures
        same == (ids_view(a@).to_set() == ids_view(b@).to_set()),
{
    let same = ids_within(a, b) && ids_within(b, a);
    proof {
        let sa = ids_view(a@);
        let sb = ids_view(b@);
        if same {
            assert(sa.to_set() =~= sb.to_set());
        } else {
            if sa.to_set() == sb.to_set() {
                assert forall|x: Seq<u8>| sa.contains(x) == sb.contains(x) by {
                    assert(sa.to_set().contains(x) == sb.to_set().contains(x));
                }
            }
        }
    }
    same
}

/// The ids of a list of operations.
pub fn operation_ids(ops: &Vec<Operation>) -> (ids: Vec<OperationId>)
    ensures
        ids_view(ids@) == ids_of(ops_view(ops@)),
{
    let mut ids: Vec<OperationId> = Vec::new();
    let mut k: usize = 0;
    while k < ops.len()
        invariant
            k <= ops.len(),
            ids.len() == k,
            forall|j: int| 0 <= j < k ==> ids@[j]@ == ops@[j]@.id,
        decreases ops.len() - k,
    {
        ids.push(ops[k].id.clone());
        k += 1;
    }
    assert(ids_view(ids@) =~= ids_of(ops_view(ops@)));
    ids
}

/// Decides, step by step, which operation a session is loaded at.
#[derive(Debug)]
pub struct HeadResolver {
    state: ResolverState,
}

impl View for HeadResolver {
    type V = ResolverStateView;

    closed spec fn view(&self) -> ResolverStateView {
        self.state@
    }
}

impl HeadResolver {
    /// The invariant of the resolver: see [`ResolverStateView::wf`].
    pub open spec fn wf(&self) -> bool {
        self@.wf()
    }

    /// A resolver that was asked nothing yet.
    pub fn new() -> (resolver: Self)
        ensures
            resolver@ == ResolverStateView::Idle,
            resolver.wf(),
    {
        HeadResolver { state: ResolverState::Idle }
    }

    /// Whether the resolver has finished or failed.
    pub fn is_finished(&self) -> (finished: bool)
        ensures
            finished == (self@ is Finished),
    {
        match &self.state {
            ResolverState::Finished => true,
            _ => false,
        }
    }

    /// Takes what came of the last action and says what to do next.
    ///
    /// An event that the resolver did not wait for ends the resolution with
    /// [`OpHeadResolutionError::UnexpectedEvent`].
    pub fn step(self, event: ResolverEvent) -> (next: (HeadResolver, ResolverAction))
        requires
            self.wf(),
        ensures
            next.0.wf(),
            (next.0@, next.1@) == spec_step(self@, event@),
    {
        match self.state {
            ResolverState::Idle => match event {
                ResolverEvent::Start(OperationRef::Current) => (
                    HeadResolver { state: ResolverState::ReadingHeads },
                    ResolverAction::ReadHeads,
                ),
                ResolverEvent::Start(OperationRef::Explicit(name)) => (
                    HeadResolver { state: ResolverState::ResolvingExplicit },
                    ResolverAction::ResolveExplicit(name),
                ),
                _ => Self::unexpected(),
            },
            ResolverState::ResolvingExplicit => match event {
                ResolverEvent::Resolved(operation) => (
                    HeadResolver { state: ResolverState::Finished },
                    ResolverAction::Finish { operation, rebased: Vec::new() },
                ),
                _ => Self::unexpected(),
            },
            ResolverState::ReadingHeads => match event {
                ResolverEvent::Heads(mut heads) => {
                    if heads.len() == 0 {
                        (
                            HeadResolver { state: ResolverState::Finished },
                            ResolverAction::Fail(OpHeadResolutionError::NoHeads),
                        )
                    } else if heads.len() == 1 {
                        let operation = heads[0].clone();
                        (
                            HeadResolver { state: ResolverState::Finished },
                            ResolverAction::Finish { operation, rebased: Vec::new() },
                        )
                    } else {
                        let base = heads[0].clone();
                        (
                            HeadResolver { state: ResolverState::LoadingBase { heads } },
                            ResolverAction::StartMerge { base },
                        )
                    }
                },
                _ => Self::unexpected(),
            },
            ResolverState::LoadingBase { heads } => match event {
                ResolverEvent::BaseLoaded => {
                    let head = heads[1].clone();
                    (
                        HeadResolver {
                            state: ResolverState::Merging { heads, index: 1, rebased: Vec::new() },
                        },
                        ResolverAction::MergeHead { head },
                    )
                },
                _ => Self::unexpected(),
            },
            ResolverState::Merging { heads, index, rebased } => match event {
                ResolverEvent::Merged { num_rebased } => {
                    assert(ops_view(heads@).len() == heads.len());
                    let mut rebased = rebased;
                    rebased.push(num_rebased);
                    if index + 1 < heads.len() {
                        let head = heads[index + 1].clone();
                        (
                            HeadResolver {
                                state: ResolverState::Merging { heads, index: index + 1, rebased },
                            },
                            ResolverAction::MergeHead { head },
                        )
                    } else {
                        let parents = operation_ids(&heads);
                        let description = "resolve concurrent operations".to_owned();
                        (
                            HeadResolver { state: ResolverState::Committing { heads, rebased } },
                            ResolverAction::Commit { parents, description },
                        )
                    }
                },
                _ => Self::unexpected(),
            },
            ResolverState::Committing { heads, rebased } => match event {
                ResolverEvent::Committed(operation) => {
                    let expected = operation_ids(&heads);
                    assert(ids_view(operation.parents@) == operation@.parents);
                    if same_id_set(&operation.parents, &expected) {
                        (
                            HeadResolver { state: ResolverState::Finished },
                            ResolverAction::Finish { operation, rebased },
                        )
                    } else {
                        (
                            HeadResolver { state: ResolverState::Finished },
                            ResolverAction::Fail(OpHeadResolutionError::UnexpectedParents),
                        )
                    }
                },
                _ => Self::unexpected(),
            },
            ResolverState::Finished => Self::unexpected(),
        }
    }

    fn unexpected() -> (next: (HeadResolver, ResolverAction))
        ensures
            next.0@ == ResolverStateView::Finished,
            next.1@ == ResolverActionView::Fail(OpHeadResolutionError::UnexpectedEvent),
    {
        (
            HeadResolver { state: ResolverState::Finished },
            ResolverAction::Fail(OpHeadResolutionError::UnexpectedEvent),
        )
    }
}

/// The state of a resolver that started idle and has taken the first `k`
/// of the given events.
pub open spec fn state_after(events: Seq<ResolverEventView>, k: nat) -> ResolverStateView
    decreases k,
{
    if k == 0 {
        ResolverStateView::Idle
    } else {
        spec_step(state_after(events, (k - 1) as nat), events[k - 1]).0
    }
}

/// What a resolver that started idle asks for on the event at place `k`.
pub open spec fn action_at(events: Seq<ResolverEventView>, k: nat) -> ResolverActionView {
    spec_step(state_after(events, k), events[k as int]).1
}

/// What a caller reports while it resolves the current operation of a log
/// with two heads or more: the request, the heads, the open transaction, one
/// count of rebased commits for each head but the first, and the commit.
pub open spec fn merge_events(
    heads: Seq<OperationView>,
    counts: Seq<usize>,
    committed: OperationView,
) -> Seq<ResolverEventView> {
    Seq::new(
        heads.len() + 3,
        |k: int|
            if k == 0 {
                ResolverEventView::Start(OperationRefView::Current)
            } else if k == 1 {
                ResolverEventView::Heads(heads)
            } else if k == 2 {
                ResolverEventView::BaseLoaded
            } else if k < heads.len() + 2 {
                ResolverEventView::Merged { num_rebased: counts[k - 3] }
            } else {
                ResolverEventView::Committed(committed)
            },
    )
}

/// With a single head the resolver returns that head and asks for no merge,
/// no rebase and no commit.
pub proof fn lemma_single_head_is_returned(head: OperationView)
    ensures
        ({
            let events = seq![
                ResolverEventView::Start(OperationRefView::Current),
                ResolverEventView::Heads(seq![head]),
            ];
            &&& action_at(events, 0) == ResolverActionView::ReadHeads
            &&& action_at(events, 1) == ResolverActionView::Finish {
                operation: head,
                rebased: Seq::<usize>::empty(),
            }
            &&& state_after(events, 2) == ResolverStateView::Finished
        }),
{
    let events = seq![
        ResolverEventView::Start(OperationRefView::Current),
        ResolverEventView::Heads(seq![head]),
    ];
    reveal_with_fuel(state_after, 3);
    assert(state_after(events, 1) == ResolverStateView::ReadingHeads);
}

/// While the heads are merged, the resolver waits for the merge of one head
/// after the other, in the order of the list, and holds the counts reported
/// so far.
proof fn lemma_merging_state(
    heads: Seq<OperationView>,
    counts: Seq<usize>,
    committed: OperationView,
    j: nat,
)
    requires
        heads.len() >= 2,
        counts.len() == heads.len() - 1,
        j <= heads.len() - 2,
    ensures
        state_after(merge_events(heads, counts, committed), 3 + j) == (ResolverStateView::Merging {
            heads,
            index: 1 + j as int,
            rebased: counts.take(j as int),
        }),
    decreases j,
{
    let events = merge_events(heads, counts, committed);
    if j == 0 {
        reveal_with_fuel(state_after, 4);
        assert(state_after(events, 1) == ResolverStateView::ReadingHeads);
        assert(state_after(events, 2) == ResolverStateView::LoadingBase { heads });
        assert(counts.take(0) =~= Seq::<usize>::empty());
    } else {
        lemma_merging_state(heads, counts, committed, (j - 1) as nat);
        assert(events[2 + j as int] == ResolverEventView::Merged { num_rebased: counts[j - 1] });
        assert(counts.take(j - 1).push(counts[j - 1]) =~= counts.take(j as int));
    }
}

/// Resolving the current operation of a log with two heads or more merges
/// every head but the first into a transaction on the first, in the order of
/// the list, commits with exactly the heads as parents, and finishes with the
/// committed operation if and only if its parents are, as a set, the heads.
pub proof fn lemma_merge_closure(
    heads: Seq<OperationView>,
    counts: Seq<usize>,
    committed: OperationView,
)
    requires
        heads.len() >= 2,
        counts.len() == heads.len() - 1,
    ensures
        ({
            let events = merge_events(heads, counts, committed);
            let n = heads.len();
            &&& action_at(events, 0) == ResolverActionView::ReadHeads
            &&& action_at(events, 1) == ResolverActionView::StartMerge { base: heads[0] }
            &&& forall|k: nat|
                2 <= k <= n ==> #[trigger] action_at(events, k) == (ResolverActionView::MergeHead {
                    head: heads[k - 1],
                })
            &&& action_at(events, n + 1) == ResolverActionView::Commit {
                parents: ids_of(heads),
                description: merge_description(),
            }
            &&& committed.parents.to_set() == ids_of(heads).to_set() ==> action_at(events, n + 2)
                == ResolverActionView::Finish { operation: committed, rebased: counts }
            &&& committed.parents.to_set() != ids_of(heads).to_set() ==> action_at(events, n + 2)
                == ResolverActionView::Fail(OpHeadResolutionError::UnexpectedParents)
            &&& state_after(events, n + 3) == ResolverStateView::Finished
        }),
{
    let events = merge_events(heads, counts, committed);
    let n = heads.len();
    reveal_with_fuel(state_after, 3);
    assert(state_after(events, 1) == ResolverStateView::ReadingHeads);
    assert(state_after(events, 2) == ResolverStateView::LoadingBase { heads });
    assert forall|k: nat| 2 <= k <= n implies #[trigger] action_at(events, k) == (
    ResolverActionView::MergeHead { head: heads[k - 1] }) by {
        if k >= 3 {
            lemma_merging_state(heads, counts, committed, (k - 3) as nat);
        }
    }
    lemma_merging_state(heads, counts, committed, (n - 2) as nat);
    assert(counts.take(n - 2).push(counts[n - 2]) =~= counts);
    assert(state_after(events, n + 2) == ResolverStateView::Committing { heads, rebased: counts });
}

/// The parents asked of the commit do not depend, as a set, on the order in
/// which the store gave the heads.
pub proof fn lemma_merge_parents_ignore_order(
    heads: Seq<OperationView>,
    reordered: Seq<OperationView>,
)
    requires
        heads.to_multiset() == reordered.to_multiset(),
    ensures
        ids_of(heads).to_set() == ids_of(reordered).to_set(),
{
    assert forall|x: Seq<u8>| ids_of(heads).contains(x) == ids_of(reordered).contains(x) by {
        if ids_of(heads).contains(x) {
            let i = choose|i: int| 0 <= i < ids_of(heads).len() && ids_of(heads)[i] == x;
            assert(heads.contains(heads[i]));
            vstd::seq_lib::to_multiset_contains(heads, heads[i]);
            vstd::seq_lib::to_multiset_contains(reordered, heads[i]);
            assert(reordered.contains(heads[i]));
            let j = choose|j: int| 0 <= j < reordered.len() && reordered[j] == heads[i];
            assert(ids_of(reordered)[j] == x);
        }
        if ids_of(reordered).contains(x) {
            let i = choose|i: int| 0 <= i < ids_of(reordered).len() && ids_of(reordered)[i] == x;
            assert(reordered.contains(reordered[i]));
            vstd::seq_lib::to_multiset_contains(heads, reordered[i]);
            vstd::seq_lib::to_multiset_contains(reordered, reordered[i]);
            assert(heads.contains(reordered[i]));
            let j = choose|j: int| 0 <= j < heads.len() && heads[j] == reordered[i];
            assert(ids_of(heads)[j] == x);
        }
    }
    assert(ids_of(heads).to_set() =~= ids_of(reordered).to_set());
}

} // verus!
