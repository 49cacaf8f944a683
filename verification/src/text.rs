//! Small helpers on strings: comparison, concatenation, decimal numbers and
//! joining with a separator.

use itertools::Itertools;
use vstd::prelude::*;
use vstd::string::*;

verus! {

/// Whether two strings hold the same characters.
pub fn str_equals(a: &str, b: &str) -> (same: bool)
    ensures
        same == (a@ == b@),
{
    let left = a.to_owned();
    let right = b.to_owned();
    left == right
}

/// One string after the other.
pub fn glue(a: &str, b: &str) -> (joined: String)
    ensures
        joined@ == a@ + b@,
{
    let mut joined = a.to_owned();
    joined.append(b);
    joined
}

/// The character of a decimal digit.
pub open spec fn digit_char(d: nat) -> char {
    ('0' as nat + d) as char
}

/// A number in decimal, without sign or leading zeros.
pub open spec fn spec_decimal(n: nat) -> Seq<char>
    decreases n,
{
    if n < 10 {
        seq![digit_char(n)]
    } else {
        spec_decimal(n / 10).push(digit_char(n % 10))
    }
}

fn digit_str(d: u64) -> (s: &'static str)
    requires
        d < 10,
    ensures
        s@ == seq![digit_char(d as nat)],
{
    proof {
        reveal_strlit("0");
        reveal_strlit("1");
        reveal_strlit("2");
        reveal_strlit("3");
        reveal_strlit("4");
        reveal_strlit("5");
        reveal_strlit("6");
        reveal_strlit("7");
        reveal_strlit("8");
        reveal_strlit("9");
    }
    let s = if d == 0 {
        "0"
    } else if d == 1 {
        "1"
    } else if d == 2 {
        "2"
    } else if d == 3 {
        "3"
    } else if d == 4 {
        "4"
    } else if d == 5 {
        "5"
    } else if d == 6 {
        "6"
    } else if d == 7 {
        "7"
    } else if d == 8 {
        "8"
    } else {
        "9"
    };
    assert(s@ =~= seq![digit_char(d as nat)]);
    s
}

/// Writes a number in decimal.
pub fn decimal(n: u64) -> (s: String)
    ensures
        s@ == spec_decimal(n as nat),
    decreases n,
{
    if n < 10 {
        digit_str(n).to_owned()
    } else {
        let mut s = decimal(n / 10);
        let last = digit_str(n % 10);
        s.append(last);
        assert(s@ =~= spec_decimal(n as nat / 10).push(digit_char(n as nat % 10)));
        s
    }
}

/// The strings of a list, as plain values.
pub open spec fn strings_view(parts: Seq<String>) -> Seq<Seq<char>> {
    Seq::new(parts.len(), |i: int| parts[i]@)
}

/// The parts one after the other, with the separator between each two.
pub open spec fn spec_join(parts: Seq<Seq<char>>, sep: Seq<char>) -> Seq<char>
    decreases parts.len(),
{
    if parts.len() == 0 {
        Seq::empty()
    } else if parts.len() == 1 {
        parts[0]
    } else {
        spec_join(parts.drop_last(), sep) + sep + parts.last()
    }
}

/// Joins strings with a separator.
///
/// Trusted: calls `Itertools::join` of `itertools` on an iterator over the
/// strings, which writes the first element and then, for each further
/// element, the separator and the element; of no element it makes the empty
/// string.
#[verifier::external_body]
pub(crate) fn join(parts: &Vec<String>, sep: &str) -> (joined: String)
    ensures
        joined@ == spec_join(strings_view(parts@), sep@),
{
    parts.iter().join(sep)
}

/// A fresh copy of a list of strings.
pub fn clone_strings(parts: &Vec<String>) -> (copy: Vec<String>)
    ensures
        strings_view(copy@) == strings_view(parts@),
{
    let mut copy: Vec<String> = Vec::new();
    let mut i: usize = 0;
    while i < parts.len()
        invariant
            i <= parts.len(),
            copy.len() == i,
            forall|j: int| 0 <= j < i ==> copy@[j]@ == parts@[j]@,
        decreases parts.len() - i,
    {
        copy.push(parts[i].clone());
        i += 1;
    }
    assert(strings_view(copy@) =~= strings_view(parts@));
    copy
}

/// A fresh copy of a string that may be absent.
pub fn clone_optional_string(s: &Option<String>) -> (copy: Option<String>)
    ensures
        optional_string_view(copy) == optional_string_view(*s),
{
    match s {
        Some(text) => Some(text.clone()),
        None => None,
    }
}

/// The characters of a string that may be absent.
pub open spec fn optional_string_view(s: Option<String>) -> Option<Seq<char>> {
    match s {
        Some(text) => Some(text@),
        None => None,
    }
}

/// Appends a character to a string.
///
/// Trusted: calls `String::push` of std, which appends the character to the
/// end of the string.
#[verifier::external_body]
pub(crate) fn push_char(s: &mut String, c: char)
    ensures
        final(s)@ == old(s)@.push(c),
{
    s.push(c);
}

/// A text that, unless it is empty, ends with a newline.
pub open spec fn spec_complete_newline(s: Seq<char>) -> Seq<char> {
    if s.len() > 0 && s.last() != '\n' {
        s.push('\n')
    } else {
        s
    }
}

/// Ends a text with a newline, unless it is empty or has one already.
pub fn complete_newline(s: &str) -> (completed: String)
    ensures
        completed@ == spec_complete_newline(s@),
{
    let mut completed = String::new();
    let mut last: Option<char> = None;
    for c in it: s.chars()
        invariant
            it.seq() == s@,
            completed@ == s@.take(it.index() as int),
            it.index() == 0 ==> last.is_none(),
            it.index() > 0 ==> last == Some(s@[it.index() - 1]),
    {
        push_char(&mut completed, c);
        assert(s@.take(it.index() + 1) =~= s@.take(it.index() as int).push(c));
        last = Some(c);
    }
    assert(s@.take(s@.len() as int) =~= s@);
    match last {
        Some(c) => {
            if c != '\n' {
                push_char(&mut completed, '\n');
            }
        },
        None => {},
    }
    completed
}

/// The paragraphs, each ended with a newline, with an empty line between
/// each two.
pub open spec fn spec_join_message_paragraphs(paragraphs: Seq<Seq<char>>) -> Seq<char> {
    spec_join(paragraphs.map_values(|p: Seq<char>| spec_complete_newline(p)), "\n"@)
}

/// Create a description from a list of paragraphs.
///
/// Each paragraph is made to end with a newline, and another newline is
/// put between each two.
pub fn join_message_paragraphs(paragraphs: &Vec<String>) -> (message: String)
    ensures
        message@ == spec_join_message_paragraphs(strings_view(paragraphs@)),
{
    let mut completed: Vec<String> = Vec::new();
    let mut i: usize = 0;
    while i < paragraphs.len()
        invariant
            i <= paragraphs.len(),
            completed.len() == i,
            forall|j: int|
                0 <= j < i ==> (#[trigger] completed@[j])@ == spec_complete_newline(paragraphs@[j]@),
        decreases paragraphs.len() - i,
    {
        completed.push(complete_newline(paragraphs[i].as_str()));
        i += 1;
    }
    assert(strings_view(completed@) =~= strings_view(paragraphs@).map_values(
        |p: Seq<char>| spec_complete_newline(p),
    ));
    join(&completed, "\n")
}

/// Whether a text begins with another.
pub open spec fn has_prefix(s: Seq<char>, prefix: Seq<char>) -> bool {
    s.len() >= prefix.len() && s.take(prefix.len() as int) == prefix
}

/// What follows a prefix, where the text begins with it.
///
/// Trusted: calls `str::strip_prefix` of std, which gives the text after
/// the prefix where the text starts with the prefix, and nothing where it
/// does not.
#[verifier::external_body]
pub(crate) fn strip_prefix(s: &str, prefix: &str) -> (rest: Option<String>)
    ensures
        has_prefix(s@, prefix@) ==> rest.is_some() && rest.unwrap()@ == s@.skip(
            prefix@.len() as int,
        ),
        !has_prefix(s@, prefix@) ==> rest.is_none(),
{
    s.strip_prefix(prefix).map(|rest| rest.to_owned())
}

/// Whether a character occurs at a place of a text and nowhere before it.
pub open spec fn is_first_occurrence(s: Seq<char>, c: char, i: int) -> bool {
    0 <= i < s.len() && s[i] == c && forall|j: int| 0 <= j < i ==> s[j] != c
}

/// Whether a character occurs at a place of a text and nowhere after it.
pub open spec fn is_last_occurrence(s: Seq<char>, c: char, i: int) -> bool {
    0 <= i < s.len() && s[i] == c && forall|j: int| i < j < s.len() ==> s[j] != c
}

/// A text split at the first occurrence of a character.
pub open spec fn spec_split_once(s: Seq<char>, c: char) -> Option<(Seq<char>, Seq<char>)> {
    if s.contains(c) {
        let i = choose|i: int| is_first_occurrence(s, c, i);
        Some((s.take(i), s.skip(i + 1)))
    } else {
        None
    }
}

/// A text split at the last occurrence of a character.
pub open spec fn spec_rsplit_once(s: Seq<char>, c: char) -> Option<(Seq<char>, Seq<char>)> {
    if s.contains(c) {
        let i = choose|i: int| is_last_occurrence(s, c, i);
        Some((s.take(i), s.skip(i + 1)))
    } else {
        None
    }
}

/// The two parts of a split, as plain values.
pub open spec fn parts_view(parts: Option<(String, String)>) -> Option<(Seq<char>, Seq<char>)> {
    match parts {
        Some(pair) => Some((pair.0@, pair.1@)),
        None => None,
    }
}

/// Splits a text at the first occurrence of a character: what stands
/// before it and what stands after it. Nothing where the character does not
/// occur.
pub fn split_once(s: &str, separator: char) -> (parts: Option<(String, String)>)
    ensures
        parts.is_some() == s@.contains(separator),
        parts.is_some() ==> s@ == parts.unwrap().0@ + seq![separator] + parts.unwrap().1@
            && !parts.unwrap().0@.contains(separator),
        parts_view(parts) == spec_split_once(s@, separator),
{
    let mut before = String::new();
    let mut after = String::new();
    let mut found = false;
    for c in it: s.chars()
        invariant
            it.seq() == s@,
            !found ==> before@ == s@.take(it.index() as int) && !before@.contains(separator)
                && after@.len() == 0,
            found ==> s@.take(it.index() as int) == before@ + seq![separator] + after@
                && !before@.contains(separator),
    {
        let ghost seen = s@.take(it.index() as int);
        let ghost more = s@.take(it.index() + 1);
        assert(more =~= seen.push(c));
        if found {
            push_char(&mut after, c);
            assert(more =~= before@ + seq![separator] + after@);
        } else if c == separator {
            found = true;
            assert(more =~= before@ + seq![separator] + after@);
        } else {
            push_char(&mut before, c);
            assert(before@ =~= more);
            assert forall|j: int| 0 <= j < more.len() implies more[j] != separator by {
                if j < seen.len() {
                    assert(seen[j] == more[j]);
                    assert(seen.contains(seen[j]));
                }
            }
        }
    }
    assert(s@.take(s@.len() as int) =~= s@);
    if found {
        proof {
            let i = before@.len() as int;
            assert(s@[i] == separator);
            assert forall|j: int| 0 <= j < i implies s@[j] != separator by {
                assert(before@[j] == s@[j]);
                assert(before@.contains(before@[j]));
            }
            assert(is_first_occurrence(s@, separator, i));
            let k = choose|k: int| is_first_occurrence(s@, separator, k);
            assert(k == i);
            assert(s@.take(i) =~= before@);
            assert(s@.skip(i + 1) =~= after@);
        }
        Some((before, after))
    } else {
        None
    }
}

/// Splits a text at the last occurrence of a character: what stands
/// before it and what stands after it. Nothing where the character does not
/// occur.
pub fn rsplit_once(s: &str, separator: char) -> (parts: Option<(String, String)>)
    ensures
        parts.is_some() == s@.contains(separator),
        parts.is_some() ==> s@ == parts.unwrap().0@ + seq![separator] + parts.unwrap().1@
            && !parts.unwrap().1@.contains(separator),
        parts_view(parts) == spec_rsplit_once(s@, separator),
{
    let mut before = String::new();
    let mut after = String::new();
    let mut found = false;
    for c in it: s.chars()
        invariant
            it.seq() == s@,
            !found ==> before@ == s@.take(it.index() as int) && !before@.contains(separator)
                && after@.len() == 0,
            found ==> s@.take(it.index() as int) == before@ + seq![separator] + after@
                && !after@.contains(separator),
    {
        let ghost seen = s@.take(it.index() as int);
        let ghost more = s@.take(it.index() + 1);
        let ghost old_after = after@;
        assert(more =~= seen.push(c));
        if c == separator {
            if found {
                push_char(&mut before, separator);
                before.append(after.as_str());
                after = String::new();
            } else {
                found = true;
            }
            assert(after@ =~= Seq::<char>::empty());
            assert(more =~= before@ + seq![separator] + after@);
        } else if found {
            push_char(&mut after, c);
            assert(more =~= before@ + seq![separator] + after@);
            assert forall|j: int| 0 <= j < after@.len() implies after@[j] != separator by {
                if j < old_after.len() {
                    assert(old_after[j] == after@[j]);
                    assert(old_after.contains(old_after[j]));
                }
            }
        } else {
            push_char(&mut before, c);
            assert(before@ =~= more);
            assert forall|j: int| 0 <= j < more.len() implies more[j] != separator by {
                if j < seen.len() {
                    assert(seen[j] == more[j]);
                    assert(seen.contains(seen[j]));
                }
            }
        }
    }
    assert(s@.take(s@.len() as int) =~= s@);
    if found {
        proof {
            let i = before@.len() as int;
            assert(s@[i] == separator);
            assert forall|j: int| i < j < s@.len() implies s@[j] != separator by {
                assert(after@[j - i - 1] == s@[j]);
                assert(after@.contains(after@[j - i - 1]));
            }
            assert(is_last_occurrence(s@, separator, i));
            let k = choose|k: int| is_last_occurrence(s@, separator, k);
            assert(k == i);
            assert(s@.take(i) =~= before@);
            assert(s@.skip(i + 1) =~= after@);
        }
        Some((before, after))
    } else {
        None
    }
}

} // verus!
