use jj_session::cli::{
    contains_string, early_config_args, has_priority_flag, insert_default_command,
    trace_file_name, ColorChoice, DefaultCommand, EarlyArgs, LogContentFormat, RevisionArg,
    DEFAULT_TERM_WIDTH,
};

fn words(items: &[&str]) -> Vec<String> {
    items.iter().map(|s| s.to_string()).collect()
}

#[test]
fn help_and_version_flags_have_priority() {
    assert!(has_priority_flag(&words(&["jj", "--help"])));
    assert!(has_priority_flag(&words(&["jj", "log", "-h"])));
    assert!(has_priority_flag(&words(&["jj", "help"])));
    assert!(has_priority_flag(&words(&["jj", "--version"])));
    assert!(has_priority_flag(&words(&["jj", "-V"])));
    assert!(!has_priority_flag(&words(&["jj", "log", "-v", "--helpful", "-H"])));
    assert!(!has_priority_flag(&words(&[])));
}

#[test]
fn default_command_goes_after_program_name() {
    assert_eq!(
        insert_default_command(words(&["jj", "-r", "@"]), Some("status".to_string())),
        DefaultCommand { string_args: words(&["jj", "status", "-r", "@"]), show_hint: false }
    );
    assert_eq!(
        insert_default_command(words(&["jj"]), None),
        DefaultCommand { string_args: words(&["jj", "log"]), show_hint: true }
    );
}

#[test]
fn early_options_become_configuration() {
    let args = EarlyArgs { color: None, no_pager: None, config_toml: words(&["a=1"]) };
    assert_eq!(early_config_args(args), words(&["a=1"]));
    let args = EarlyArgs {
        color: Some(ColorChoice::Always),
        no_pager: Some(true),
        config_toml: words(&["a=1"]),
    };
    assert_eq!(
        early_config_args(args),
        words(&["a=1", "ui.color=\"always\"", "ui.paginate=\"never\""])
    );
    let args = EarlyArgs { color: Some(ColorChoice::Never), no_pager: Some(false), config_toml: vec![] };
    assert_eq!(early_config_args(args), words(&["ui.color=\"never\""]));
    let args = EarlyArgs { color: Some(ColorChoice::Auto), no_pager: None, config_toml: vec![] };
    assert_eq!(early_config_args(args), words(&["ui.color=\"auto\""]));
    let args = EarlyArgs { color: None, no_pager: Some(true), config_toml: vec![] };
    assert_eq!(early_config_args(args), words(&["ui.paginate=\"never\""]));
    assert_eq!(ColorChoice::Always.name(), "always");
}

#[test]
fn revision_argument_is_never_empty() {
    assert_eq!(RevisionArg::parse(""), None);
    let arg = RevisionArg::parse("@-").unwrap();
    assert_eq!(arg.as_str(), "@-");
    assert_eq!(arg, RevisionArg("@-".to_string()));
}

#[test]
fn log_content_wraps_at_terminal_width() {
    assert_eq!(LogContentFormat::new(false, Some(120)), LogContentFormat::NoWrap);
    assert_eq!(LogContentFormat::new(true, Some(120)), LogContentFormat::Wrap { term_width: 120 });
    assert_eq!(LogContentFormat::new(true, None), LogContentFormat::Wrap { term_width: 80 });
    assert_eq!(DEFAULT_TERM_WIDTH, 80);
    assert_eq!(LogContentFormat::NoWrap.wrap_width(4), None);
    assert_eq!(LogContentFormat::Wrap { term_width: 80 }.wrap_width(0), Some(80));
    assert_eq!(LogContentFormat::Wrap { term_width: 80 }.wrap_width(6), Some(74));
    assert_eq!(LogContentFormat::Wrap { term_width: 80 }.wrap_width(80), Some(0));
    assert_eq!(LogContentFormat::Wrap { term_width: 80 }.wrap_width(200), Some(0));
}

#[test]
fn trace_file_is_named_after_the_time() {
    assert_eq!(trace_file_name("", 1700000000), "jj-trace-1700000000.json");
    assert_eq!(trace_file_name("", 0), "jj-trace-0.json");
    assert_eq!(trace_file_name("out.json", 1700000000), "out.json");
}

#[test]
fn contains_string_looks_for_equal_text() {
    assert!(contains_string(&words(&["a", "bc"]), "bc"));
    assert!(!contains_string(&words(&["a", "bc"]), "b"));
    assert!(!contains_string(&words(&[]), ""));
}
