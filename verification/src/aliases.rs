//! Command aliases: a first argument that is no command of the program and
//! has a definition in the configuration is replaced by that definition,
//! again and again, until a command of the program stands first. An alias
//! that comes up a second time is a cycle and is refused.
//!
//! Parsing the command line is not done here. The caller parses the
//! arguments that [`AliasResolver`] holds, reports the subcommand it found,
//! and parses again for as long as it is told to.

use crate::cli::contains_string;
use crate::command_error::{
    internal_error, user_error, user_error_with_hint, CommandError, CommandErrorView, ErrorChain,
    ErrorChainView,
};
use crate::text::{clone_strings, glue, str_equals, strings_view};
use vstd::prelude::*;
use vstd::string::*;

verus! {

/// The error of an alias that is defined in both sections of the
/// configuration.
pub open spec fn spec_defined_twice(alias: Seq<char>) -> CommandErrorView {
    CommandErrorView::UserError {
        err: ErrorChainView {
            message: "Alias \""@ + alias + "\" is defined in both [aliases] and [alias]"@,
            sources: Seq::empty(),
        },
        hint: Some(
            "[aliases] is the preferred section for aliases. Please remove the alias from [alias]."@,
        ),
    }
}

/// Whether a name of the first `n` of the old section is also in the
/// preferred one.
pub open spec fn clashes_before(aliases: Seq<Seq<char>>, alias: Seq<Seq<char>>, n: int) -> bool {
    exists|i: int| 0 <= i < n && aliases.contains(#[trigger] alias[i])
}

/// Checks that no alias of the section `[alias]` is also defined in the
/// preferred section `[aliases]`. The first name of `[alias]` that is, in
/// the order given, is reported.
pub fn check_alias_sections(aliases: &Vec<String>, alias: &Vec<String>) -> (outcome: Result<
    (),
    CommandError,
>)
    ensures
        outcome.is_ok() == !clashes_before(
            strings_view(aliases@),
            strings_view(alias@),
            alias.len() as int,
        ),
        outcome.is_err() ==> exists|i: int|
            0 <= i < alias.len() && !clashes_before(strings_view(aliases@), strings_view(alias@), i)
                && strings_view(aliases@).contains(#[trigger] strings_view(alias@)[i])
                && outcome->Err_0@ == spec_defined_twice(strings_view(alias@)[i]),
{
    let mut i: usize = 0;
    while i < alias.len()
        invariant
            i <= alias.len(),
            !clashes_before(strings_view(aliases@), strings_view(alias@), i as int),
        decreases alias.len() - i,
    {
        if contains_string(aliases, alias[i].as_str()) {
            let mut message = glue("Alias \"", alias[i].as_str());
            message.append("\" is defined in both [aliases] and [alias]");
            let err = ErrorChain { message, sources: Vec::new() };
            assert(err@.sources =~= Seq::<Seq<char>>::empty());
            assert(strings_view(alias@)[i as int] == alias@[i as int]@);
            assert(clashes_before(strings_view(aliases@), strings_view(alias@), alias.len() as int));
            return Err(
                user_error_with_hint(
                    err,
                    "[aliases] is the preferred section for aliases. Please remove the alias from [alias].",
                ),
            );
        }
        i += 1;
    }
    Ok(())
}

/// What the configuration holds under the name of an alias.
#[derive(Debug, PartialEq, Eq)]
pub struct AliasDefinition {
    pub name: String,
    /// The arguments that the alias stands for, or nothing where the
    /// configuration holds something else than a list of strings.
    pub definition: Option<Vec<String>>,
}

pub struct AliasDefinitionView {
    pub name: Seq<char>,
    pub definition: Option<Seq<Seq<char>>>,
}

impl View for AliasDefinition {
    type V = AliasDefinitionView;

    open spec fn view(&self) -> AliasDefinitionView {
        AliasDefinitionView {
            name: self.name@,
            definition: match self.definition {
                Some(arguments) => Some(strings_view(arguments@)),
                None => None,
            },
        }
    }
}

/// The definitions of a list, as plain values.
pub open spec fn definitions_view(definitions: Seq<AliasDefinition>) -> Seq<AliasDefinitionView> {
    Seq::new(definitions.len(), |i: int| definitions[i]@)
}

/// The subcommand that the parser found: its name and the arguments after
/// it.
#[derive(Debug, PartialEq, Eq)]
pub struct ParsedCommand {
    pub command_name: String,
    pub trailing_args: Vec<String>,
}

pub struct ParsedCommandView {
    pub command_name: Seq<char>,
    pub trailing_args: Seq<Seq<char>>,
}

impl View for ParsedCommand {
    type V = ParsedCommandView;

    open spec fn view(&self) -> ParsedCommandView {
        ParsedCommandView {
            command_name: self.command_name@,
            trailing_args: strings_view(self.trailing_args@),
        }
    }
}

/// What to do after a step of the resolution.
#[derive(Debug, PartialEq, Eq)]
pub enum AliasStep {
    /// An alias was replaced: parse the arguments again.
    Reparse,
    /// No alias stands first: the arguments are final.
    Done,
    /// The aliases cannot be resolved.
    Fail(CommandError),
}

pub enum AliasStepView {
    Reparse,
    Done,
    Fail(CommandErrorView),
}

impl View for AliasStep {
    type V = AliasStepView;

    open spec fn view(&self) -> AliasStepView {
        match self {
            AliasStep::Reparse => AliasStepView::Reparse,
            AliasStep::Done => AliasStepView::Done,
            AliasStep::Fail(error) => AliasStepView::Fail(error@),
        }
    }
}

/// The state of the resolution, as plain values.
pub struct AliasResolverView {
    pub string_args: Seq<Seq<char>>,
    pub definitions: Seq<AliasDefinitionView>,
    pub real_commands: Seq<Seq<char>>,
    pub resolved_aliases: Seq<Seq<char>>,
}

/// Whether the arguments end with the given ones, after one argument or
/// more.
pub open spec fn ends_after_command(args: Seq<Seq<char>>, trailing: Seq<Seq<char>>) -> bool {
    args.len() >= trailing.len() + 1 && args.skip(args.len() - trailing.len()) == trailing
}

/// Whether some definition has the name.
pub open spec fn is_defined(definitions: Seq<AliasDefinitionView>, name: Seq<char>) -> bool {
    exists|i: int| 0 <= i < definitions.len() && (#[trigger] definitions[i]).name == name
}

/// The place of the first definition with the name.
pub open spec fn definition_index(definitions: Seq<AliasDefinitionView>, name: Seq<char>) -> int {
    choose|i: int|
        0 <= i < definitions.len() && (#[trigger] definitions[i]).name == name && forall|j: int|
            0 <= j < i ==> (#[trigger] definitions[j]).name != name
}

/// The error of an alias that leads back to itself.
pub open spec fn spec_recursive_alias(name: Seq<char>) -> CommandErrorView {
    CommandErrorView::UserError {
        err: ErrorChainView {
            message: "Recursive alias definition involving \""@ + name + "\""@,
            sources: Seq::empty(),
        },
        hint: None,
    }
}

/// The error of an alias whose definition is no list of strings.
pub open spec fn spec_not_a_string_list(name: Seq<char>) -> CommandErrorView {
    CommandErrorView::UserError {
        err: ErrorChainView {
            message: "Alias definition for \""@ + name + "\" must be a string list"@,
            sources: Seq::empty(),
        },
        hint: None,
    }
}

/// The error of a parser that reports arguments which the command line
/// does not end with.
pub open spec fn spec_misplaced_arguments() -> CommandErrorView {
    CommandErrorView::InternalError(
        ErrorChainView {
            message: "The arguments of an alias do not end the command line"@,
            sources: Seq::empty(),
        },
    )
}

/// The step of the resolution on what the parser found: the state after it
/// and what to do.
pub open spec fn spec_alias_step(state: AliasResolverView, parsed: Option<ParsedCommandView>) -> (
    AliasResolverView,
    AliasStepView,
) {
    match parsed {
        None => (state, AliasStepView::Done),
        Some(command) => {
            let name = command.command_name;
            if state.real_commands.contains(name) {
                (state, AliasStepView::Done)
            } else if state.resolved_aliases.contains(name) {
                (state, AliasStepView::Fail(spec_recursive_alias(name)))
            } else if !is_defined(state.definitions, name) {
                // Not a real command and not an alias
                (state, AliasStepView::Done)
            } else {
                match state.definitions[definition_index(state.definitions, name)].definition {
                    None => (state, AliasStepView::Fail(spec_not_a_string_list(name))),
                    Some(definition) => {
                        if ends_after_command(state.string_args, command.trailing_args) {
                            (
                                AliasResolverView {
                                    string_args: state.string_args.take(
                                        state.string_args.len() - 1 - command.trailing_args.len(),
                                    ) + definition + command.trailing_args,
                                    definitions: state.definitions,
                                    real_commands: state.real_commands,
                                    resolved_aliases: state.resolved_aliases.push(name),
                                },
                                AliasStepView::Reparse,
                            )
                        } else {
                            (state, AliasStepView::Fail(spec_misplaced_arguments()))
                        }
                    },
                }
            }
        },
    }
}

/// Whether the arguments end with the given ones, after one argument or
/// more.
pub fn args_end_after_command(args: &Vec<String>, trailing: &Vec<String>) -> (ends: bool)
    ensures
        ends == ends_after_command(strings_view(args@), strings_view(trailing@)),
{
    if args.len() < trailing.len() || args.len() - trailing.len() < 1 {
        return false;
    }
    let offset = args.len() - trailing.len();
    let ghost a = strings_view(args@);
    let ghost t = strings_view(trailing@);
    let mut i: usize = 0;
    while i < trailing.len()
        invariant
            i <= trailing.len(),
            offset == args.len() - trailing.len(),
            offset >= 1,
            a == strings_view(args@),
            t == strings_view(trailing@),
            forall|j: int| 0 <= j < i ==> a[offset + j] == t[j],
        decreases trailing.len() - i,
    {
        if !str_equals(args[offset + i].as_str(), trailing[i].as_str()) {
            assert(a.skip(offset as int)[i as int] == a[offset + i]);
            assert(a[offset + i] != t[i as int]);
            return false;
        }
        i += 1;
    }
    assert(a.skip(offset as int) =~= t);
    true
}

/// Replaces aliases at the head of a command line by their definitions.
#[derive(Debug)]
pub struct AliasResolver {
    string_args: Vec<String>,
    definitions: Vec<AliasDefinition>,
    real_commands: Vec<String>,
    resolved_aliases: Vec<String>,
}

impl View for AliasResolver {
    type V = AliasResolverView;

    closed spec fn view(&self) -> AliasResolverView {
        AliasResolverView {
            string_args: strings_view(self.string_args@),
            definitions: definitions_view(self.definitions@),
            real_commands: strings_view(self.real_commands@),
            resolved_aliases: strings_view(self.resolved_aliases@),
        }
    }
}

impl AliasResolver {
    /// A resolver for a command line, the aliases of the configuration, and
    /// the names and aliases of the commands of the program.
    pub fn new(
        string_args: Vec<String>,
        definitions: Vec<AliasDefinition>,
        real_commands: Vec<String>,
    ) -> (resolver: Self)
        ensures
            resolver@ == (AliasResolverView {
                string_args: strings_view(string_args@),
                definitions: definitions_view(definitions@),
                real_commands: strings_view(real_commands@),
                resolved_aliases: Seq::empty(),
            }),
    {
        let resolver = AliasResolver {
            string_args,
            definitions,
            real_commands,
            resolved_aliases: Vec::new(),
        };
        assert(strings_view(resolver.resolved_aliases@) =~= Seq::<Seq<char>>::empty());
        resolver
    }

    /// The command line as it stands.
    pub fn string_args(&self) -> (args: &Vec<String>)
        ensures
            strings_view(args@) == self@.string_args,
    {
        &self.string_args
    }

    /// The command line as it stands, for good.
    pub fn into_string_args(self) -> (args: Vec<String>)
        ensures
            strings_view(args@) == self@.string_args,
    {
        self.string_args
    }

    /// The place of the first definition with the name.
    fn find_definition(&self, name: &str) -> (place: Option<usize>)
        ensures
            place.is_some() == is_defined(self@.definitions, name@),
            place.is_some() ==> place.unwrap() < self.definitions.len() && place.unwrap()
                == definition_index(self@.definitions, name@),
    {
        let ghost defs = definitions_view(self.definitions@);
        let mut i: usize = 0;
        while i < self.definitions.len()
            invariant
                i <= self.definitions.len(),
                defs == definitions_view(self.definitions@),
                forall|j: int| 0 <= j < i ==> (#[trigger] defs[j]).name != name@,
            decreases self.definitions.len() - i,
        {
            if str_equals(self.definitions[i].name.as_str(), name) {
                proof {
                    assert(defs[i as int].name == name@);
                    let k = definition_index(defs, name@);
                    assert(k == i);
                }
                return Some(i);
            }
            i += 1;
        }
        None
    }

    /// Takes the subcommand that the parser found in the command line as
    /// it stands, or nothing where it found none, and replaces it where it
    /// is an alias.
    pub fn step(&mut self, parsed: Option<ParsedCommand>) -> (next: AliasStep)
        ensures
            (final(self)@, next@) == spec_alias_step(
                old(self)@,
                match parsed {
                    Some(command) => Some(command@),
                    None => None,
                },
            ),
    {
        let command = match parsed {
            None => {
                // No more alias commands, or hit unknown option
                return AliasStep::Done;
            },
            Some(command) => command,
        };
        let alias_name = command.command_name;
        let alias_args = command.trailing_args;
        if contains_string(&self.real_commands, alias_name.as_str()) {
            return AliasStep::Done;
        }
        if contains_string(&self.resolved_aliases, alias_name.as_str()) {
            let mut message = glue("Recursive alias definition involving \"", alias_name.as_str());
            message.append("\"");
            let err = ErrorChain { message, sources: Vec::new() };
            assert(err@.sources =~= Seq::<Seq<char>>::empty());
            return AliasStep::Fail(user_error(err));
        }
        let place = match self.find_definition(alias_name.as_str()) {
            None => {
                return AliasStep::Done;
            },
            Some(place) => place,
        };
        assert(definitions_view(self.definitions@)[place as int] == self.definitions@[place as int]@);
        let alias_definition = match &self.definitions[place].definition {
            None => {
                let mut message = glue("Alias definition for \"", alias_name.as_str());
                message.append("\" must be a string list");
                let err = ErrorChain { message, sources: Vec::new() };
                assert(err@.sources =~= Seq::<Seq<char>>::empty());
                return AliasStep::Fail(user_error(err));
            },
            Some(arguments) => clone_strings(arguments),
        };
        if !args_end_after_command(&self.string_args, &alias_args) {
            return AliasStep::Fail(
                internal_error(ErrorChain::new("The arguments of an alias do not end the command line")),
            );
        }
        let ghost before = strings_view(self.string_args@);
        let ghost definition = strings_view(alias_definition@);
        let ghost trailing = strings_view(alias_args@);
        let ghost resolved = strings_view(self.resolved_aliases@);
        let keep = self.string_args.len() - 1 - alias_args.len();
        let mut new_args: Vec<String> = Vec::new();
        let mut i: usize = 0;
        while i < keep
            invariant
                i <= keep,
                keep <= self.string_args.len(),
                before == strings_view(self.string_args@),
                strings_view(new_args@) == before.take(i as int),
            decreases keep - i,
        {
            let ghost so_far = strings_view(new_args@);
            new_args.push(self.string_args[i].clone());
            assert(strings_view(new_args@) =~= so_far.push(before[i as int]));
            assert(before.take(i + 1) =~= before.take(i as int).push(before[i as int]));
            i += 1;
        }
        let mut j: usize = 0;
        while j < alias_definition.len()
            invariant
                j <= alias_definition.len(),
                definition == strings_view(alias_definition@),
                strings_view(new_args@) == before.take(keep as int) + definition.take(j as int),
            decreases alias_definition.len() - j,
        {
            let ghost so_far = strings_view(new_args@);
            new_args.push(alias_definition[j].clone());
            assert(strings_view(new_args@) =~= so_far.push(definition[j as int]));
            assert(definition.take(j + 1) =~= definition.take(j as int).push(definition[j as int]));
            j += 1;
        }
        assert(definition.take(alias_definition.len() as int) =~= definition);
        let mut k: usize = 0;
        while k < alias_args.len()
            invariant
                k <= alias_args.len(),
                trailing == strings_view(alias_args@),
                strings_view(new_args@) == before.take(keep as int) + definition + trailing.take(
                    k as int,
                ),
            decreases alias_args.len() - k,
        {
            let ghost so_far = strings_view(new_args@);
            new_args.push(alias_args[k].clone());
            assert(strings_view(new_args@) =~= so_far.push(trailing[k as int]));
            assert(trailing.take(k + 1) =~= trailing.take(k as int).push(trailing[k as int]));
            k += 1;
        }
        assert(trailing.take(alias_args.len() as int) =~= trailing);
        self.string_args = new_args;
        let ghost name = alias_name@;
        self.resolved_aliases.push(alias_name);
        assert(strings_view(self.resolved_aliases@) =~= resolved.push(name));
        AliasStep::Reparse
    }
}

} // verus!
