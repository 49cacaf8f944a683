use jj_session::command_error::{CommandError, ErrorChain};
use jj_session::object_id::OperationId;
use jj_session::op_heads::{
    holds_id, ids_within, operation_ids, same_id_set, HeadResolver, OpHeadResolutionError,
    OperationRef, ResolverAction, ResolverEvent,
};
use jj_session::op_log::Operation;

fn op_id(tag: u8) -> OperationId {
    OperationId::new(vec![tag; 8])
}

fn op(tag: u8, parents: &[u8]) -> Operation {
    Operation::new(op_id(tag), parents.iter().map(|p| op_id(*p)).collect())
}

fn start_current() -> HeadResolver {
    let resolver = HeadResolver::new();
    let (resolver, action) = resolver.step(ResolverEvent::Start(OperationRef::parse("@")));
    assert_eq!(action, ResolverAction::ReadHeads);
    resolver
}

#[test]
fn at_sign_means_current_operation() {
    assert_eq!(OperationRef::parse("@"), OperationRef::Current);
    assert!(OperationRef::parse("@").is_current());
    assert_eq!(OperationRef::parse("abc123"), OperationRef::Explicit("abc123".to_string()));
    assert_eq!(OperationRef::parse("@-"), OperationRef::Explicit("@-".to_string()));
    assert_eq!(OperationRef::parse(""), OperationRef::Explicit(String::new()));
    assert!(!OperationRef::parse("@-").is_current());
}

#[test]
fn single_head_is_returned_without_merge() {
    let resolver = start_current();
    let (resolver, action) = resolver.step(ResolverEvent::Heads(vec![op(1, &[0])]));
    assert_eq!(action, ResolverAction::Finish { operation: op(1, &[0]), rebased: vec![] });
    assert!(resolver.is_finished());
}

#[test]
fn no_heads_is_a_corrupt_repository() {
    let resolver = start_current();
    let (resolver, action) = resolver.step(ResolverEvent::Heads(vec![]));
    assert_eq!(action, ResolverAction::Fail(OpHeadResolutionError::NoHeads));
    assert!(resolver.is_finished());
}

#[test]
fn explicit_operation_is_looked_up_without_merge() {
    let resolver = HeadResolver::new();
    assert!(!resolver.is_finished());
    let (resolver, action) = resolver.step(ResolverEvent::Start(OperationRef::parse("abc")));
    assert_eq!(action, ResolverAction::ResolveExplicit("abc".to_string()));
    let (resolver, action) = resolver.step(ResolverEvent::Resolved(op(5, &[4])));
    assert_eq!(action, ResolverAction::Finish { operation: op(5, &[4]), rebased: vec![] });
    assert!(resolver.is_finished());
}

#[test]
fn concurrent_writers_are_merged_into_one_head() {
    // Two writers both started from A; one committed B, the other C.
    let b = op(2, &[1]);
    let c = op(3, &[1]);
    let resolver = start_current();
    let (resolver, action) = resolver.step(ResolverEvent::Heads(vec![b.clone(), c.clone()]));
    assert_eq!(action, ResolverAction::StartMerge { base: b.clone() });
    let (resolver, action) = resolver.step(ResolverEvent::BaseLoaded);
    assert_eq!(action, ResolverAction::MergeHead { head: c.clone() });
    let (resolver, action) = resolver.step(ResolverEvent::Merged { num_rebased: 4 });
    assert_eq!(
        action,
        ResolverAction::Commit {
            parents: vec![op_id(2), op_id(3)],
            description: "resolve concurrent operations".to_string(),
        }
    );
    assert!(!resolver.is_finished());
    let d = op(4, &[2, 3]);
    let (resolver, action) = resolver.step(ResolverEvent::Committed(d.clone()));
    assert_eq!(action, ResolverAction::Finish { operation: d, rebased: vec![4] });
    assert!(resolver.is_finished());
}

#[test]
fn three_heads_are_merged_in_store_order() {
    let heads = vec![op(2, &[1]), op(3, &[1]), op(4, &[1])];
    let resolver = start_current();
    let (resolver, action) = resolver.step(ResolverEvent::Heads(heads.clone()));
    assert_eq!(action, ResolverAction::StartMerge { base: heads[0].clone() });
    let (resolver, action) = resolver.step(ResolverEvent::BaseLoaded);
    assert_eq!(action, ResolverAction::MergeHead { head: heads[1].clone() });
    let (resolver, action) = resolver.step(ResolverEvent::Merged { num_rebased: 0 });
    assert_eq!(action, ResolverAction::MergeHead { head: heads[2].clone() });
    let (resolver, action) = resolver.step(ResolverEvent::Merged { num_rebased: 2 });
    assert_eq!(
        action,
        ResolverAction::Commit {
            parents: vec![op_id(2), op_id(3), op_id(4)],
            description: "resolve concurrent operations".to_string(),
        }
    );
    // The parents of the commit may come in another order.
    let merged = op(9, &[4, 2, 3]);
    let (resolver, action) = resolver.step(ResolverEvent::Committed(merged.clone()));
    assert_eq!(action, ResolverAction::Finish { operation: merged, rebased: vec![0, 2] });
    assert!(resolver.is_finished());
}

#[test]
fn commit_with_other_parents_is_refused() {
    let resolver = start_current();
    let (resolver, _) = resolver.step(ResolverEvent::Heads(vec![op(2, &[1]), op(3, &[1])]));
    let (resolver, _) = resolver.step(ResolverEvent::BaseLoaded);
    let (resolver, _) = resolver.step(ResolverEvent::Merged { num_rebased: 0 });
    let (resolver, action) = resolver.step(ResolverEvent::Committed(op(4, &[2])));
    assert_eq!(action, ResolverAction::Fail(OpHeadResolutionError::UnexpectedParents));
    assert!(resolver.is_finished());
}

#[test]
fn unexpected_event_ends_resolution() {
    let resolver = HeadResolver::new();
    let (resolver, action) = resolver.step(ResolverEvent::BaseLoaded);
    assert_eq!(action, ResolverAction::Fail(OpHeadResolutionError::UnexpectedEvent));
    assert!(resolver.is_finished());
    let (_, action) = resolver.step(ResolverEvent::Start(OperationRef::Current));
    assert_eq!(action, ResolverAction::Fail(OpHeadResolutionError::UnexpectedEvent));

    let resolver = start_current();
    let (_, action) = resolver.step(ResolverEvent::Merged { num_rebased: 1 });
    assert_eq!(action, ResolverAction::Fail(OpHeadResolutionError::UnexpectedEvent));
}

#[test]
fn id_sets_ignore_order_and_repetition() {
    let a = vec![op_id(1), op_id(2), op_id(2)];
    let b = vec![op_id(2), op_id(1)];
    let c = vec![op_id(1), op_id(3)];
    assert!(same_id_set(&a, &b));
    assert!(!same_id_set(&a, &c));
    assert!(same_id_set(&vec![], &vec![]));
    assert!(!same_id_set(&a, &vec![]));
    assert!(ids_within(&vec![op_id(1)], &c));
    assert!(!ids_within(&c, &vec![op_id(1)]));
    assert!(holds_id(&a, &op_id(2)));
    assert!(!holds_id(&a, &op_id(3)));
    assert_eq!(operation_ids(&vec![op(2, &[1]), op(3, &[1])]), vec![op_id(2), op_id(3)]);
}

#[test]
fn resolution_errors_are_internal_errors() {
    assert_eq!(
        OpHeadResolutionError::NoHeads.into_command_error(),
        CommandError::InternalError(ErrorChain {
            message: "Corrupt repository".to_string(),
            sources: vec!["Operation log has no heads".to_string()],
        })
    );
    assert_eq!(
        OpHeadResolutionError::UnexpectedParents.into_command_error(),
        CommandError::InternalError(ErrorChain {
            message: "Corrupt repository".to_string(),
            sources: vec!["Merged operation has unexpected parents".to_string()],
        })
    );
    assert_eq!(
        OpHeadResolutionError::UnexpectedEvent.into_command_error(),
        CommandError::InternalError(ErrorChain {
            message: "unexpected event".to_string(),
            sources: vec![],
        })
    );
}
