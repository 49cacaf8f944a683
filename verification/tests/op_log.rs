use jj_session::object_id::OperationId;
use jj_session::op_log::{clone_ids, OpLogError, Operation, OperationLog};

fn op_id(tag: u8) -> OperationId {
    OperationId::new(vec![tag; 8])
}

fn op(tag: u8, parents: &[u8]) -> Operation {
    Operation::new(op_id(tag), parents.iter().map(|p| op_id(*p)).collect())
}

#[test]
fn log_appends_operations_after_their_parents() {
    let mut log = OperationLog::new();
    assert_eq!(log.len(), 0);
    assert_eq!(log.insert(op(0, &[])), Ok(0));
    assert_eq!(log.insert(op(1, &[0])), Ok(1));
    assert_eq!(log.insert(op(2, &[0])), Ok(2));
    assert_eq!(log.insert(op(3, &[1, 2])), Ok(3));
    assert_eq!(log.len(), 4);
    assert_eq!(log.get(3), &op(3, &[1, 2]));
    assert_eq!(log.position(&op_id(2)), Some(2));
    assert_eq!(log.position(&op_id(9)), None);
    assert!(log.contains(&op_id(1)));
    assert!(!log.contains(&op_id(4)));
}

#[test]
fn log_refuses_duplicate_operation() {
    let mut log = OperationLog::new();
    log.insert(op(0, &[])).unwrap();
    assert_eq!(log.insert(op(0, &[])), Err(OpLogError::DuplicateOperation));
    assert_eq!(log.len(), 1);
}

#[test]
fn log_refuses_unknown_parent() {
    let mut log = OperationLog::new();
    log.insert(op(0, &[])).unwrap();
    assert_eq!(log.insert(op(1, &[0, 5])), Err(OpLogError::UnknownParent));
    assert_eq!(log.insert(op(2, &[2])), Err(OpLogError::UnknownParent));
    assert_eq!(log.len(), 1);
}

#[test]
fn log_gives_parents_by_position() {
    let mut log = OperationLog::new();
    log.insert(op(0, &[])).unwrap();
    log.insert(op(1, &[0])).unwrap();
    log.insert(op(2, &[0])).unwrap();
    log.insert(op(3, &[2, 1])).unwrap();
    assert_eq!(log.parent_positions(0), Vec::<usize>::new());
    assert_eq!(log.parent_positions(3), vec![2, 1]);
    assert_eq!(log.adjacency_table(), vec![vec![], vec![0], vec![0], vec![2, 1]]);
}

#[test]
fn operation_accessors_and_clone() {
    let o = op(3, &[1, 2]);
    assert_eq!(o.id(), &op_id(3));
    assert_eq!(o.parent_ids(), &vec![op_id(1), op_id(2)]);
    assert_eq!(o.clone(), o);
    assert_eq!(clone_ids(&vec![op_id(1), op_id(2)]), vec![op_id(1), op_id(2)]);
}
