//! Identifiers of operations, commits, changes and trees, and the short
//! hexadecimal forms in which they are shown to the user.
//!
//! An identifier is a string of bytes. Its view is the sequence of those
//! bytes, and two identifiers are the same when their views are equal.

use jj_lib::object_id::ObjectId;
use vstd::prelude::*;
use vstd::string::*;

verus! {

/// The number of hexadecimal digits in a short hash.
pub const SHORT_HASH_LEN: usize = 12;

/// The lower-case hexadecimal digit for a value below sixteen.
pub open spec fn hex_digit(v: int) -> char {
    if v < 10 {
        ('0' as int + v) as char
    } else {
        ('a' as int + v - 10) as char
    }
}

/// Lower-case hexadecimal form of a byte string, two digits per byte, the
/// high half first.
pub open spec fn spec_hex(bytes: Seq<u8>) -> Seq<char> {
    Seq::new(
        2 * bytes.len(),
        |i: int|
            if i % 2 == 0 {
                hex_digit(bytes[i / 2] as int / 16)
            } else {
                hex_digit(bytes[i / 2] as int % 16)
            },
    )
}

/// Whether a character is a hexadecimal digit of either case.
pub open spec fn is_hex_digit(c: char) -> bool {
    ('0' <= c <= '9') || ('a' <= c <= 'f') || ('A' <= c <= 'F')
}

/// The value of a hexadecimal digit.
pub open spec fn hex_value(c: char) -> int {
    if '0' <= c <= '9' {
        c as int - '0' as int
    } else if 'a' <= c <= 'f' {
        c as int - 'a' as int + 10
    } else {
        c as int - 'A' as int + 10
    }
}

/// The digit that stands for a hexadecimal digit in the reversed alphabet,
/// which runs from `z` for zero down to `k` for fifteen.
pub open spec fn reverse_hex_digit(c: char) -> char {
    ('z' as int - hex_value(c)) as char
}

/// A hexadecimal string rewritten in the reversed alphabet.
pub open spec fn spec_reverse_hex(hex: Seq<char>) -> Seq<char> {
    Seq::new(hex.len(), |i: int| reverse_hex_digit(hex[i]))
}

pub open spec fn all_hex_digits(s: Seq<char>) -> bool {
    forall|i: int| 0 <= i < s.len() ==> is_hex_digit(#[trigger] s[i])
}

/// Hexadecimal encoding of a byte string.
///
/// Trusted: calls `ObjectId::hex` of `jj_lib` on an identifier made of the
/// given bytes, which encodes them with `hex::encode`: two lower-case digits
/// per byte, in order.
#[verifier::external_body]
fn encode_hex(bytes: &Vec<u8>) -> (s: String)
    ensures
        s@ == spec_hex(bytes@),
{
    jj_lib::backend::CommitId::from_bytes(bytes).hex()
}

/// Rewrites a hexadecimal string in the reversed alphabet.
///
/// Trusted: calls `jj_lib::hex_util::to_reverse_hex`, which maps every byte
/// of the input that is a hexadecimal digit to `z` minus the digit's value
/// and gives nothing as soon as one byte is no such digit.
#[verifier::external_body]
fn to_reverse_hex(forward_hex: &str) -> (r: Option<String>)
    ensures
        all_hex_digits(forward_hex@) ==> r.is_some() && r.unwrap()@ == spec_reverse_hex(
            forward_hex@,
        ),
        !all_hex_digits(forward_hex@) ==> r.is_none(),
{
    jj_lib::hex_util::to_reverse_hex(forward_hex)
}

/// Whether two byte strings hold the same bytes.
pub fn bytes_equal(a: &Vec<u8>, b: &Vec<u8>) -> (same: bool)
    ensures
        same == (a@ == b@),
{
    if a.len() != b.len() {
        return false;
    }
    let mut i: usize = 0;
    while i < a.len()
        invariant
            a.len() == b.len(),
            i <= a.len(),
            forall|j: int| 0 <= j < i ==> a@[j] == b@[j],
        decreases a.len() - i,
    {
        if a[i] != b[i] {
            return false;
        }
        i += 1;
    }
    assert(a@ =~= b@);
    true
}

/// A fresh copy of a byte string.
pub fn copy_bytes(a: &Vec<u8>) -> (copy: Vec<u8>)
    ensures
        copy@ == a@,
{
    let mut copy: Vec<u8> = Vec::new();
    let mut i: usize = 0;
    while i < a.len()
        invariant
            i <= a.len(),
            copy@ == a@.subrange(0, i as int),
        decreases a.len() - i,
    {
        copy.push(a[i]);
        assert(copy@ =~= a@.subrange(0, i + 1));
        i += 1;
    }
    assert(a@.subrange(0, a.len() as int) =~= a@);
    copy
}

/// Identifier of an operation in the operation log.
#[derive(Debug, PartialEq, Eq, Hash)]
pub struct OperationId {
    pub bytes: Vec<u8>,
}

impl View for OperationId {
    type V = Seq<u8>;

    open spec fn view(&self) -> Seq<u8> {
        self.bytes@
    }
}

impl OperationId {
    pub fn new(bytes: Vec<u8>) -> (id: Self)
        ensures
            id@ == bytes@,
    {
        OperationId { bytes }
    }

    pub fn as_bytes(&self) -> (bytes: &Vec<u8>)
        ensures
            bytes@ == self@,
    {
        &self.bytes
    }

    pub fn equals(&self, other: &OperationId) -> (same: bool)
        ensures
            same == (self@ == other@),
    {
        bytes_equal(&self.bytes, &other.bytes)
    }

    pub fn hex(&self) -> (s: String)
        ensures
            s@ == spec_hex(self@),
    {
        encode_hex(&self.bytes)
    }
}

impl Clone for OperationId {
    fn clone(&self) -> (copy: Self)
        ensures
            copy@ == self@,
    {
        OperationId { bytes: copy_bytes(&self.bytes) }
    }
}

/// Identifier of a commit: the hash of its content.
#[derive(Debug, PartialEq, Eq, Hash)]
pub struct CommitId {
    pub bytes: Vec<u8>,
}

impl View for CommitId {
    type V = Seq<u8>;

    open spec fn view(&self) -> Seq<u8> {
        self.bytes@
    }
}

impl CommitId {
    pub fn new(bytes: Vec<u8>) -> (id: Self)
        ensures
            id@ == bytes@,
    {
        CommitId { bytes }
    }

    pub fn as_bytes(&self) -> (bytes: &Vec<u8>)
        ensures
            bytes@ == self@,
    {
        &self.bytes
    }

    pub fn equals(&self, other: &CommitId) -> (same: bool)
        ensures
            same == (self@ == other@),
    {
        bytes_equal(&self.bytes, &other.bytes)
    }

    pub fn hex(&self) -> (s: String)
        ensures
            s@ == spec_hex(self@),
    {
        encode_hex(&self.bytes)
    }
}

impl Clone for CommitId {
    fn clone(&self) -> (copy: Self)
        ensures
            copy@ == self@,
    {
        CommitId { bytes: copy_bytes(&self.bytes) }
    }
}

/// Identifier of a change: it stays the same when the commit is rewritten.
#[derive(Debug, PartialEq, Eq, Hash)]
pub struct ChangeId {
    pub bytes: Vec<u8>,
}

impl View for ChangeId {
    type V = Seq<u8>;

    open spec fn view(&self) -> Seq<u8> {
        self.bytes@
    }
}

impl ChangeId {
    pub fn new(bytes: Vec<u8>) -> (id: Self)
        ensures
            id@ == bytes@,
    {
        ChangeId { bytes }
    }

    pub fn as_bytes(&self) -> (bytes: &Vec<u8>)
        ensures
            bytes@ == self@,
    {
        &self.bytes
    }

    pub fn equals(&self, other: &ChangeId) -> (same: bool)
        ensures
            same == (self@ == other@),
    {
        bytes_equal(&self.bytes, &other.bytes)
    }

    pub fn hex(&self) -> (s: String)
        ensures
            s@ == spec_hex(self@),
    {
        encode_hex(&self.bytes)
    }
}

impl Clone for ChangeId {
    fn clone(&self) -> (copy: Self)
        ensures
            copy@ == self@,
    {
        ChangeId { bytes: copy_bytes(&self.bytes) }
    }
}

/// Identifier of a file tree.
#[derive(Debug, PartialEq, Eq, Hash)]
pub struct TreeId {
    pub bytes: Vec<u8>,
}

impl View for TreeId {
    type V = Seq<u8>;

    open spec fn view(&self) -> Seq<u8> {
        self.bytes@
    }
}

impl TreeId {
    pub fn new(bytes: Vec<u8>) -> (id: Self)
        ensures
            id@ == bytes@,
    {
        TreeId { bytes }
    }

    pub fn as_bytes(&self) -> (bytes: &Vec<u8>)
        ensures
            bytes@ == self@,
    {
        &self.bytes
    }

    pub fn equals(&self, other: &TreeId) -> (same: bool)
        ensures
            same == (self@ == other@),
    {
        bytes_equal(&self.bytes, &other.bytes)
    }

    pub fn hex(&self) -> (s: String)
        ensures
            s@ == spec_hex(self@),
    {
        encode_hex(&self.bytes)
    }
}

impl Clone for TreeId {
    fn clone(&self) -> (copy: Self)
        ensures
            copy@ == self@,
    {
        TreeId { bytes: copy_bytes(&self.bytes) }
    }
}

/// Every character of a hexadecimal encoding is an ASCII hexadecimal digit.
proof fn lemma_hex_is_ascii(bytes: Seq<u8>)
    ensures
        vstd::utf8::is_ascii_chars(spec_hex(bytes)),
        all_hex_digits(spec_hex(bytes)),
{
    let h = spec_hex(bytes);
    assert forall|i: int| 0 <= i < h.len() implies is_hex_digit(#[trigger] h[i]) && (h[i] as nat)
        < 128 by {
        let v = if i % 2 == 0 {
            bytes[i / 2] as int / 16
        } else {
            bytes[i / 2] as int % 16
        };
        assert(0 <= v < 16);
        assert(h[i] == hex_digit(v));
    }
}

/// The first twelve hexadecimal digits of a byte string of six bytes or more.
fn short_hex(bytes: &Vec<u8>) -> (s: String)
    requires
        bytes@.len() >= 6,
    ensures
        s@ == spec_hex(bytes@).subrange(0, SHORT_HASH_LEN as int),
        all_hex_digits(s@),
{
    let full = encode_hex(bytes);
    proof {
        lemma_hex_is_ascii(bytes@);
    }
    let prefix = full.as_str().substring_ascii(0, SHORT_HASH_LEN);
    String::from_str(prefix)
}

/// The short form of a commit id: its first twelve hexadecimal digits.
pub fn short_commit_hash(commit_id: &CommitId) -> (s: String)
    requires
        commit_id@.len() >= 6,
    ensures
        s@ == spec_hex(commit_id@).subrange(0, SHORT_HASH_LEN as int),
{
    short_hex(&commit_id.bytes)
}

/// The short form of an operation id: its first twelve hexadecimal digits.
pub fn short_operation_hash(operation_id: &OperationId) -> (s: String)
    requires
        operation_id@.len() >= 6,
    ensures
        s@ == spec_hex(operation_id@).subrange(0, SHORT_HASH_LEN as int),
{
    short_hex(&operation_id.bytes)
}

/// The short form of a change id: its first twelve hexadecimal digits,
/// written in the reversed alphabet.
pub fn short_change_hash(change_id: &ChangeId) -> (s: String)
    requires
        change_id@.len() >= 6,
    ensures
        s@ == spec_reverse_hex(spec_hex(change_id@).subrange(0, SHORT_HASH_LEN as int)),
{
    let forward = short_hex(&change_id.bytes);
    to_reverse_hex(forward.as_str()).unwrap()
}

} // verus!
