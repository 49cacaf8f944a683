use jj_session::command_error::{
    format_similarity_hint, handle_command_result, internal_error, internal_error_with_message, user_error,
    user_error_with_hint, user_error_with_hint_opt, user_error_with_message,
    user_error_with_message_and_hint, ClapError, ClapErrorKind, CommandError, CommandOutcome,
    ErrorChain, OutputLine, OutputStream, BROKEN_PIPE_EXIT_CODE,
};

fn chain(message: &str, sources: &[&str]) -> ErrorChain {
    ErrorChain {
        message: message.to_string(),
        sources: sources.iter().map(|s| s.to_string()).collect(),
    }
}

fn out(stream: OutputStream, text: &str) -> OutputLine {
    OutputLine { stream, text: text.to_string() }
}

#[test]
fn error_constructors_build_the_variants() {
    assert_eq!(
        user_error(ErrorChain::new("bad")),
        CommandError::UserError { err: chain("bad", &[]), hint: None }
    );
    assert_eq!(
        user_error_with_hint(ErrorChain::new("bad"), "try this"),
        CommandError::UserError { err: chain("bad", &[]), hint: Some("try this".to_string()) }
    );
    assert_eq!(
        user_error_with_hint_opt(chain("bad", &["why"]), None),
        CommandError::UserError { err: chain("bad", &["why"]), hint: None }
    );
    assert_eq!(
        user_error_with_message("Failed to edit diff", chain("tool exited", &["status 1"])),
        CommandError::UserError {
            err: chain("Failed to edit diff", &["tool exited", "status 1"]),
            hint: None
        }
    );
    assert_eq!(
        user_error_with_message_and_hint("Failed", "Increase it", ErrorChain::new("too large")),
        CommandError::UserError {
            err: chain("Failed", &["too large"]),
            hint: Some("Increase it".to_string())
        }
    );
    assert_eq!(
        internal_error(ErrorChain::new("oops")),
        CommandError::InternalError(chain("oops", &[]))
    );
    assert_eq!(
        internal_error_with_message("Corrupt repository", ErrorChain::new("Operation log has no heads")),
        CommandError::InternalError(chain("Corrupt repository", &["Operation log has no heads"]))
    );
    assert_eq!(
        ErrorChain::with_message("outer", chain("inner", &["root"])),
        chain("outer", &["inner", "root"])
    );
    let e = user_error_with_hint(chain("bad", &["why"]), "hint");
    assert_eq!(e.clone(), e);
}

#[test]
fn success_exits_with_zero() {
    assert_eq!(
        handle_command_result(&Ok(()), false),
        CommandOutcome { exit_code: 0, output: vec![], request_pager: false }
    );
}

#[test]
fn user_error_exits_with_one_and_shows_hint() {
    let result = Err(user_error_with_hint(ErrorChain::new("No such revision"), "Did you mean x?"));
    assert_eq!(
        handle_command_result(&result, false),
        CommandOutcome {
            exit_code: 1,
            output: vec![
                out(OutputStream::Error, "Error: No such revision\n"),
                out(OutputStream::Hint, "Hint: Did you mean x?\n"),
            ],
            request_pager: false,
        }
    );
}

#[test]
fn single_source_is_shown_on_one_line() {
    let result = Err(user_error(chain("Failed to read file", &["permission denied"])));
    assert_eq!(
        handle_command_result(&result, true),
        CommandOutcome {
            exit_code: 1,
            output: vec![
                out(OutputStream::Error, "Error: Failed to read file\n"),
                out(OutputStream::Stderr, "Caused by: permission denied\n"),
            ],
            request_pager: false,
        }
    );
}

#[test]
fn several_sources_are_numbered() {
    let sources: Vec<String> = (1..=11).map(|i| format!("cause {i}")).collect();
    let err = ErrorChain { message: "Merge failed".to_string(), sources };
    let outcome = handle_command_result(&Err(internal_error(err)), false);
    assert_eq!(outcome.exit_code, 255);
    assert!(!outcome.request_pager);
    assert_eq!(outcome.output.len(), 13);
    assert_eq!(outcome.output[0], out(OutputStream::Error, "Internal error: Merge failed\n"));
    assert_eq!(outcome.output[1], out(OutputStream::Stderr, "Caused by:\n"));
    assert_eq!(outcome.output[2], out(OutputStream::Stderr, "1: cause 1\n"));
    assert_eq!(outcome.output[3], out(OutputStream::Stderr, "2: cause 2\n"));
    assert_eq!(outcome.output[11], out(OutputStream::Stderr, "10: cause 10\n"));
    assert_eq!(outcome.output[12], out(OutputStream::Stderr, "11: cause 11\n"));
}

#[test]
fn config_error_points_at_the_documentation() {
    let result = Err(CommandError::ConfigError("ui.editor: bad".to_string()));
    assert_eq!(
        handle_command_result(&result, false),
        CommandOutcome {
            exit_code: 1,
            output: vec![
                out(OutputStream::Error, "Config error: ui.editor: bad\n"),
                out(
                    OutputStream::Hint,
                    "For help, see https://github.com/martinvonz/jj/blob/main/docs/config.md.\n"
                ),
            ],
            request_pager: false,
        }
    );
}

#[test]
fn cli_error_exits_with_two() {
    let result = Err(CommandError::CliError("Non-utf8 argument".to_string()));
    assert_eq!(
        handle_command_result(&result, false),
        CommandOutcome {
            exit_code: 2,
            output: vec![out(OutputStream::Error, "Error: Non-utf8 argument\n")],
            request_pager: false,
        }
    );
}

fn clap(kind: ClapErrorKind) -> Result<(), CommandError> {
    Err(CommandError::ClapCliError(ClapError {
        kind,
        rendered: "plain".to_string(),
        rendered_ansi: "coloured".to_string(),
    }))
}

#[test]
fn clap_help_goes_to_stdout_through_the_pager() {
    assert_eq!(
        handle_command_result(&clap(ClapErrorKind::DisplayHelp), false),
        CommandOutcome {
            exit_code: 0,
            output: vec![out(OutputStream::Stdout, "plain")],
            request_pager: true,
        }
    );
    assert_eq!(
        handle_command_result(&clap(ClapErrorKind::DisplayVersion), true),
        CommandOutcome {
            exit_code: 0,
            output: vec![out(OutputStream::Stdout, "coloured")],
            request_pager: false,
        }
    );
}

#[test]
fn clap_usage_error_goes_to_stderr() {
    assert_eq!(
        handle_command_result(
            &clap(ClapErrorKind::DisplayHelpOnMissingArgumentOrSubcommand),
            false
        ),
        CommandOutcome {
            exit_code: 2,
            output: vec![out(OutputStream::Stderr, "plain")],
            request_pager: true,
        }
    );
    assert_eq!(
        handle_command_result(&clap(ClapErrorKind::Other), true),
        CommandOutcome {
            exit_code: 2,
            output: vec![out(OutputStream::Stderr, "coloured")],
            request_pager: false,
        }
    );
}

#[test]
fn broken_pipe_exits_quietly_with_three() {
    assert_eq!(BROKEN_PIPE_EXIT_CODE, 3);
    assert_eq!(
        handle_command_result(&Err(CommandError::BrokenPipe), false),
        CommandOutcome { exit_code: 3, output: vec![], request_pager: false }
    );
}

#[test]
fn internal_error_exits_with_255() {
    let result = Err(internal_error_with_message(
        "Failed to load the repo",
        ErrorChain::new("missing file"),
    ));
    assert_eq!(
        handle_command_result(&result, false),
        CommandOutcome {
            exit_code: 255,
            output: vec![
                out(OutputStream::Error, "Internal error: Failed to load the repo\n"),
                out(OutputStream::Stderr, "Caused by: missing file\n"),
            ],
            request_pager: false,
        }
    );
}

#[test]
fn similarity_hint_quotes_the_candidates() {
    assert_eq!(format_similarity_hint(&vec![]), None);
    assert_eq!(
        format_similarity_hint(&vec!["main".to_string()]),
        Some("Did you mean \"main\"?".to_string())
    );
    assert_eq!(
        format_similarity_hint(&vec!["foo".to_string(), "bar".to_string(), "b z".to_string()]),
        Some("Did you mean \"foo\", \"bar\", \"b z\"?".to_string())
    );
}
