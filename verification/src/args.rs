//! The command line of a session, as it is recorded with a transaction.

use crate::text::{join, push_char, spec_join, strings_view};
use vstd::prelude::*;
use vstd::string::*;

verus! {

/// Whether a character needs no quoting in a shell.
pub open spec fn is_plain_char(c: char) -> bool {
    ('A' <= c <= 'Z') || ('a' <= c <= 'z') || ('0' <= c <= '9') || c == ',' || c == '-' || c == '.'
        || c == '/' || c == ':' || c == '@' || c == '_'
}

/// Whether no character of a text needs quoting.
pub open spec fn is_plain(s: Seq<char>) -> bool {
    forall|i: int| 0 <= i < s.len() ==> is_plain_char(#[trigger] s[i])
}

/// A text with a backslash put before every single quote.
pub open spec fn spec_escape_quotes(s: Seq<char>) -> Seq<char>
    decreases s.len(),
{
    if s.len() == 0 {
        Seq::empty()
    } else if s.last() == '\'' {
        spec_escape_quotes(s.drop_last()).push('\\').push('\'')
    } else {
        spec_escape_quotes(s.drop_last()).push(s.last())
    }
}

/// An argument as it is recorded: as it stands where no character needs
/// quoting, else between single quotes, with a backslash before every
/// single quote of its own.
pub open spec fn spec_shell_escape(arg: Seq<char>) -> Seq<char> {
    if is_plain(arg) {
        arg
    } else {
        seq!['\''] + spec_escape_quotes(arg) + seq!['\'']
    }
}

/// Whether a character needs no quoting in a shell.
pub fn plain_char(c: char) -> (plain: bool)
    ensures
        plain == is_plain_char(c),
{
    ('A' <= c && c <= 'Z') || ('a' <= c && c <= 'z') || ('0' <= c && c <= '9') || c == ',' || c
        == '-' || c == '.' || c == '/' || c == ':' || c == '@' || c == '_'
}

/// Quotes an argument for the record of a transaction.
pub fn shell_escape(arg: &str) -> (escaped: String)
    ensures
        escaped@ == spec_shell_escape(arg@),
{
    let mut copy = String::new();
    let mut quoted = String::new();
    push_char(&mut quoted, '\'');
    let mut plain = true;
    for c in it: arg.chars()
        invariant
            it.seq() == arg@,
            copy@ == arg@.take(it.index() as int),
            quoted@ == seq!['\''] + spec_escape_quotes(arg@.take(it.index() as int)),
            plain == is_plain(arg@.take(it.index() as int)),
    {
        let ghost before = arg@.take(it.index() as int);
        let ghost after = arg@.take(it.index() + 1);
        proof {
            assert(after =~= before.push(c));
            assert(after.drop_last() =~= before);
            if plain && is_plain_char(c) {
                assert forall|i: int| 0 <= i < after.len() implies is_plain_char(
                    #[trigger] after[i],
                ) by {
                    if i < before.len() {
                        assert(before[i] == after[i]);
                    }
                }
            } else if !plain {
                let i = choose|i: int| 0 <= i < before.len() && !is_plain_char(#[trigger] before[i]);
                assert(after[i] == before[i]);
            } else {
                assert(after[before.len() as int] == c);
            }
        }
        push_char(&mut copy, c);
        if c == '\'' {
            push_char(&mut quoted, '\\');
        }
        push_char(&mut quoted, c);
        plain = plain && plain_char(c);
        assert(quoted@ =~= seq!['\''] + spec_escape_quotes(after));
    }
    assert(arg@.take(arg@.len() as int) =~= arg@);
    if plain {
        copy
    } else {
        push_char(&mut quoted, '\'');
        assert(quoted@ =~= seq!['\''] + spec_escape_quotes(arg@) + seq!['\'']);
        quoted
    }
}

/// The arguments after the name of the program.
pub open spec fn spec_arguments(string_args: Seq<Seq<char>>) -> Seq<Seq<char>> {
    if string_args.len() == 0 {
        Seq::empty()
    } else {
        string_args.subrange(1, string_args.len() as int)
    }
}

/// The command line as it is recorded with a transaction: `jj`, then the
/// arguments after the name of the program, each quoted where it needs to
/// be, with a blank between each two.
pub open spec fn spec_transaction_args(string_args: Seq<Seq<char>>) -> Seq<char> {
    spec_join(seq!["jj"@] + spec_escaped_arguments(string_args), " "@)
}

/// The arguments after the name of the program, each quoted where it needs
/// to be.
pub open spec fn spec_escaped_arguments(string_args: Seq<Seq<char>>) -> Seq<Seq<char>> {
    spec_arguments(string_args).map_values(|a: Seq<char>| spec_shell_escape(a))
}

/// The command line to record with a transaction under the tag `args`.
pub fn transaction_args(string_args: &Vec<String>) -> (args: String)
    ensures
        args@ == spec_transaction_args(strings_view(string_args@)),
{
    let ghost rest = spec_arguments(strings_view(string_args@));
    let ghost escaped = spec_escaped_arguments(strings_view(string_args@));
    let mut quoted_strings: Vec<String> = Vec::new();
    quoted_strings.push("jj".to_owned());
    let mut i: usize = 1;
    assert(strings_view(quoted_strings@) =~= seq!["jj"@] + escaped.take(0));
    while i < string_args.len()
        invariant
            1 <= i,
            i <= string_args.len() || i == 1,
            rest == spec_arguments(strings_view(string_args@)),
            escaped == spec_escaped_arguments(strings_view(string_args@)),
            strings_view(quoted_strings@) == seq!["jj"@] + escaped.take(i - 1),
        decreases string_args.len() - i,
    {
        let ghost before = strings_view(quoted_strings@);
        let one = shell_escape(string_args[i].as_str());
        assert(rest[i - 1] == string_args@[i as int]@);
        assert(one@ == escaped[i - 1]);
        quoted_strings.push(one);
        assert(strings_view(quoted_strings@) =~= before.push(escaped[i - 1]));
        assert(escaped.take(i as int) =~= escaped.take(i - 1).push(escaped[i - 1]));
        i += 1;
    }
    assert(escaped.take(i - 1) =~= escaped);
    join(&quoted_strings, " ")
}

} // verus!
