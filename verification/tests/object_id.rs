use jj_session::object_id::{
    bytes_equal, copy_bytes, short_change_hash, short_commit_hash, short_operation_hash, ChangeId,
    CommitId, OperationId, TreeId,
};

#[test]
fn hex_writes_two_lower_case_digits_per_byte() {
    let id = CommitId::new(vec![0x00, 0x1f, 0xa0, 0xff]);
    assert_eq!(id.hex(), "001fa0ff");
    assert_eq!(OperationId::new(vec![]).hex(), "");
    assert_eq!(TreeId::new(vec![0xab]).hex(), "ab");
    assert_eq!(ChangeId::new(vec![0x9c, 0x01]).hex(), "9c01");
}

#[test]
fn short_commit_hash_is_first_twelve_digits() {
    let id = CommitId::new(vec![0x01, 0x23, 0x45, 0x67, 0x89, 0xab, 0xcd, 0xef]);
    assert_eq!(short_commit_hash(&id), "0123456789ab");
}

#[test]
fn short_operation_hash_of_six_bytes_is_whole_hex() {
    let id = OperationId::new(vec![0xde, 0xad, 0xbe, 0xef, 0x00, 0x01]);
    assert_eq!(short_operation_hash(&id), "deadbeef0001");
}

#[test]
fn short_change_hash_uses_reversed_alphabet() {
    let id = ChangeId::new(vec![0x01, 0x23, 0x45, 0x67, 0x89, 0xab, 0xcd, 0xef]);
    assert_eq!(short_change_hash(&id), "zyxwvutsrqpo");
    let zeros = ChangeId::new(vec![0; 6]);
    assert_eq!(short_change_hash(&zeros), "zzzzzzzzzzzz");
    let ones = ChangeId::new(vec![0xff; 7]);
    assert_eq!(short_change_hash(&ones), "kkkkkkkkkkkk");
}

#[test]
fn ids_compare_by_bytes() {
    let a = OperationId::new(vec![1, 2, 3]);
    let b = OperationId::new(vec![1, 2, 3]);
    let c = OperationId::new(vec![1, 2]);
    let d = OperationId::new(vec![1, 2, 4]);
    assert!(a.equals(&b));
    assert!(!a.equals(&c));
    assert!(!a.equals(&d));
    assert_eq!(a.clone(), a);
    assert_eq!(a.as_bytes(), &vec![1, 2, 3]);
}

#[test]
fn byte_helpers_compare_and_copy() {
    assert!(bytes_equal(&vec![], &vec![]));
    assert!(bytes_equal(&vec![7, 8], &vec![7, 8]));
    assert!(!bytes_equal(&vec![7, 8], &vec![7, 9]));
    assert!(!bytes_equal(&vec![7], &vec![7, 9]));
    assert_eq!(copy_bytes(&vec![5, 6, 7]), vec![5, 6, 7]);
}
