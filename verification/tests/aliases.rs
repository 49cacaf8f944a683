use jj_session::aliases::{
    args_end_after_command, check_alias_sections, AliasDefinition, AliasResolver, AliasStep,
    ParsedCommand,
};
use jj_session::command_error::{CommandError, ErrorChain};

fn list(items: &[&str]) -> Vec<String> {
    items.iter().map(|s| s.to_string()).collect()
}

fn alias(name: &str, definition: &[&str]) -> AliasDefinition {
    AliasDefinition { name: name.to_string(), definition: Some(list(definition)) }
}

fn parsed(name: &str, trailing: &[&str]) -> Option<ParsedCommand> {
    Some(ParsedCommand { command_name: name.to_string(), trailing_args: list(trailing) })
}

fn user(message: &str, hint: Option<&str>) -> CommandError {
    CommandError::UserError {
        err: ErrorChain { message: message.to_string(), sources: vec![] },
        hint: hint.map(|h| h.to_string()),
    }
}

#[test]
fn alias_in_both_sections_is_refused() {
    assert_eq!(check_alias_sections(&list(&["a", "b"]), &list(&["c", "d"])), Ok(()));
    assert_eq!(check_alias_sections(&list(&[]), &list(&[])), Ok(()));
    assert_eq!(
        check_alias_sections(&list(&["a", "b", "c"]), &list(&["x", "c", "a"])),
        Err(user(
            "Alias \"c\" is defined in both [aliases] and [alias]",
            Some("[aliases] is the preferred section for aliases. Please remove the alias from [alias].")
        ))
    );
}

#[test]
fn real_command_is_left_alone() {
    let mut resolver =
        AliasResolver::new(list(&["jj", "log", "-r", "@"]), vec![alias("log", &["status"])], list(&["log"]));
    assert_eq!(resolver.step(parsed("log", &["-r", "@"])), AliasStep::Done);
    assert_eq!(resolver.string_args(), &list(&["jj", "log", "-r", "@"]));
}

#[test]
fn no_subcommand_ends_resolution() {
    let mut resolver = AliasResolver::new(list(&["jj", "--bogus"]), vec![], list(&["log"]));
    assert_eq!(resolver.step(None), AliasStep::Done);
    assert_eq!(resolver.into_string_args(), list(&["jj", "--bogus"]));
}

#[test]
fn unknown_command_that_is_no_alias_ends_resolution() {
    let mut resolver = AliasResolver::new(list(&["jj", "frob"]), vec![alias("l", &["log"])], list(&["log"]));
    assert_eq!(resolver.step(parsed("frob", &[])), AliasStep::Done);
    assert_eq!(resolver.into_string_args(), list(&["jj", "frob"]));
}

#[test]
fn alias_is_replaced_by_its_definition() {
    let mut resolver = AliasResolver::new(
        list(&["jj", "-R", "repo", "l", "-n", "3"]),
        vec![alias("l", &["log", "-r", "all()"])],
        list(&["log", "status"]),
    );
    assert_eq!(resolver.step(parsed("l", &["-n", "3"])), AliasStep::Reparse);
    assert_eq!(
        resolver.string_args(),
        &list(&["jj", "-R", "repo", "log", "-r", "all()", "-n", "3"])
    );
    assert_eq!(resolver.step(parsed("log", &["-r", "all()", "-n", "3"])), AliasStep::Done);
}

#[test]
fn aliases_are_resolved_in_chain() {
    let mut resolver = AliasResolver::new(
        list(&["jj", "a"]),
        vec![alias("a", &["b", "x"]), alias("b", &["log"])],
        list(&["log"]),
    );
    assert_eq!(resolver.step(parsed("a", &[])), AliasStep::Reparse);
    assert_eq!(resolver.string_args(), &list(&["jj", "b", "x"]));
    assert_eq!(resolver.step(parsed("b", &["x"])), AliasStep::Reparse);
    assert_eq!(resolver.string_args(), &list(&["jj", "log", "x"]));
    assert_eq!(resolver.step(parsed("log", &["x"])), AliasStep::Done);
}

#[test]
fn recursive_alias_is_refused() {
    let mut resolver = AliasResolver::new(
        list(&["jj", "a"]),
        vec![alias("a", &["b"]), alias("b", &["a"])],
        list(&["log"]),
    );
    assert_eq!(resolver.step(parsed("a", &[])), AliasStep::Reparse);
    assert_eq!(resolver.step(parsed("b", &[])), AliasStep::Reparse);
    assert_eq!(
        resolver.step(parsed("a", &[])),
        AliasStep::Fail(user("Recursive alias definition involving \"a\"", None))
    );
    assert_eq!(resolver.string_args(), &list(&["jj", "a"]));
}

#[test]
fn alias_must_be_a_string_list() {
    let mut resolver = AliasResolver::new(
        list(&["jj", "a"]),
        vec![AliasDefinition { name: "a".to_string(), definition: None }],
        list(&["log"]),
    );
    assert_eq!(
        resolver.step(parsed("a", &[])),
        AliasStep::Fail(user("Alias definition for \"a\" must be a string list", None))
    );
}

#[test]
fn misplaced_alias_arguments_are_an_internal_error() {
    let mut resolver =
        AliasResolver::new(list(&["jj", "a", "x"]), vec![alias("a", &["log"])], list(&["log"]));
    assert_eq!(
        resolver.step(parsed("a", &["y"])),
        AliasStep::Fail(CommandError::InternalError(ErrorChain {
            message: "The arguments of an alias do not end the command line".to_string(),
            sources: vec![],
        }))
    );
    assert_eq!(resolver.string_args(), &list(&["jj", "a", "x"]));
}

#[test]
fn trailing_arguments_must_follow_a_command() {
    assert!(args_end_after_command(&list(&["jj", "a", "x", "y"]), &list(&["x", "y"])));
    assert!(args_end_after_command(&list(&["a"]), &list(&[])));
    assert!(!args_end_after_command(&list(&["x", "y"]), &list(&["x", "y"])));
    assert!(!args_end_after_command(&list(&["jj", "a", "x", "y"]), &list(&["x", "z"])));
    assert!(!args_end_after_command(&list(&["y"]), &list(&["x", "y"])));
    assert!(!args_end_after_command(&list(&[]), &list(&[])));
}
