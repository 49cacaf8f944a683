//! The command line before a command runs: the default command, aliases,
//! and the options that are read early.

use crate::text::{decimal, glue, spec_decimal, str_equals, strings_view};
use vstd::prelude::*;
use vstd::string::*;

verus! {

/// Whether a list of strings holds a text.
pub fn contains_string(list: &Vec<String>, text: &str) -> (found: bool)
    ensures
        found == strings_view(list@).contains(text@),
{
    let mut i: usize = 0;
    while i < list.len()
        invariant
            i <= list.len(),
            forall|j: int| 0 <= j < i ==> strings_view(list@)[j] != text@,
        decreases list.len() - i,
    {
        if str_equals(list[i].as_str(), text) {
            assert(strings_view(list@)[i as int] == text@);
            return true;
        }
        i += 1;
    }
    false
}

/// Whether an argument asks for help or for the version, which no default
/// command may stand before.
pub open spec fn is_priority_flag(arg: Seq<char>) -> bool {
    arg == "help"@ || arg == "--help"@ || arg == "-h"@ || arg == "--version"@ || arg == "-V"@
}

/// Whether some argument asks for help or for the version.
pub open spec fn spec_has_priority_flag(string_args: Seq<Seq<char>>) -> bool {
    exists|i: int| 0 <= i < string_args.len() && is_priority_flag(#[trigger] string_args[i])
}

/// Whether some argument asks for help or for the version.
pub fn has_priority_flag(string_args: &Vec<String>) -> (found: bool)
    ensures
        found == spec_has_priority_flag(strings_view(string_args@)),
{
    let mut i: usize = 0;
    while i < string_args.len()
        invariant
            i <= string_args.len(),
            forall|j: int| 0 <= j < i ==> !is_priority_flag(#[trigger] strings_view(string_args@)[j]),
        decreases string_args.len() - i,
    {
        let arg = string_args[i].as_str();
        if str_equals(arg, "help") || str_equals(arg, "--help") || str_equals(arg, "-h")
            || str_equals(arg, "--version") || str_equals(arg, "-V") {
            assert(is_priority_flag(strings_view(string_args@)[i as int]));
            return true;
        }
        i += 1;
    }
    false
}

/// The command line with the default command put in.
#[derive(Debug, PartialEq, Eq)]
pub struct DefaultCommand {
    /// The arguments, with the default command after the name of the
    /// program.
    pub string_args: Vec<String>,
    /// Whether to tell the user how to choose a default command, because
    /// none is configured.
    pub show_hint: bool,
}

/// The command that is run where none is configured.
pub open spec fn fallback_command() -> Seq<char> {
    "log"@
}

/// Puts the default command into a command line that names no command:
/// directly after the name of the program. The default is the configured
/// command, or `log` where none is configured, of which the user is then
/// told.
pub fn insert_default_command(string_args: Vec<String>, configured: Option<String>) -> (result:
    DefaultCommand)
    requires
        string_args.len() >= 1,
    ensures
        result.show_hint == configured.is_none(),
        strings_view(result.string_args@) == strings_view(string_args@).insert(
            1,
            match configured {
                Some(command) => command@,
                None => fallback_command(),
            },
        ),
{
    let ghost before = strings_view(string_args@);
    let show_hint = configured.is_none();
    let default_command = match configured {
        Some(command) => command,
        None => "log".to_owned(),
    };
    let ghost added = default_command@;
    let mut string_args = string_args;
    // Insert the default command directly after the path to the binary.
    string_args.insert(1, default_command);
    assert(strings_view(string_args@) =~= before.insert(1, added));
    DefaultCommand { string_args, show_hint }
}

/// When to colorize output.
#[derive(Debug, PartialEq, Eq, Structural, Clone, Copy)]
pub enum ColorChoice {
    Always,
    Never,
    Auto,
}

impl ColorChoice {
    /// The choice as it is written in the configuration.
    pub open spec fn spec_name(self) -> Seq<char> {
        match self {
            ColorChoice::Always => "always"@,
            ColorChoice::Never => "never"@,
            ColorChoice::Auto => "auto"@,
        }
    }

    /// The choice as it is written in the configuration.
    pub fn name(&self) -> (name: &'static str)
        ensures
            name@ == self.spec_name(),
    {
        match self {
            ColorChoice::Always => "always",
            ColorChoice::Never => "never",
            ColorChoice::Auto => "auto",
        }
    }
}

/// The options that are read before the command line is parsed in full.
#[derive(Debug, PartialEq, Eq)]
pub struct EarlyArgs {
    /// When to colorize output (always, never, auto)
    pub color: Option<ColorChoice>,
    /// Disable the pager
    pub no_pager: Option<bool>,
    /// Additional configuration options (can be repeated)
    pub config_toml: Vec<String>,
}

/// The configuration that the early options stand for: what was given as
/// configuration, then the choice of colour, then the ban of the pager.
pub open spec fn spec_early_config(
    color: Option<ColorChoice>,
    no_pager: Option<bool>,
    config_toml: Seq<Seq<char>>,
) -> Seq<Seq<char>> {
    let with_color = match color {
        Some(choice) => config_toml.push("ui.color=\""@ + choice.spec_name() + "\""@),
        None => config_toml,
    };
    if no_pager == Some(true) {
        with_color.push("ui.paginate=\"never\""@)
    } else {
        with_color
    }
}

/// The pieces of configuration that the early options add up to. Where
/// there is none, the configuration is left as it was loaded.
pub fn early_config_args(args: EarlyArgs) -> (config_toml: Vec<String>)
    ensures
        strings_view(config_toml@) == spec_early_config(
            args.color,
            args.no_pager,
            strings_view(args.config_toml@),
        ),
{
    let ghost given = strings_view(args.config_toml@);
    let mut config_toml = args.config_toml;
    match args.color {
        Some(choice) => {
            let mut entry = glue("ui.color=\"", choice.name());
            entry.append("\"");
            let ghost text = entry@;
            config_toml.push(entry);
            assert(strings_view(config_toml@) =~= given.push(text));
        },
        None => {},
    }
    let ghost with_color = strings_view(config_toml@);
    match args.no_pager {
        Some(true) => {
            config_toml.push("ui.paginate=\"never\"".to_owned());
            assert(strings_view(config_toml@) =~= with_color.push("ui.paginate=\"never\""@));
        },
        _ => {},
    }
    config_toml
}

/// The options that every command takes.
#[derive(Debug, PartialEq, Eq)]
pub struct Args {
    pub global_args: crate::workspace::GlobalArgs,
    pub early_args: EarlyArgs,
}

/// Whether to show the statistics of the allocator when the program exits.
#[derive(Debug, PartialEq, Eq, Structural, Clone, Copy)]
pub struct ShowAllocStats {
    /// Show memory allocation statistics from the internal heap allocator
    /// on `stdout`, when the program exits.
    pub show_heap_stats: bool,
}

/// A revision argument: an expression that names commits. It is never
/// empty.
#[derive(Debug, PartialEq, Eq)]
pub struct RevisionArg(pub String);

impl RevisionArg {
    /// The argument for a text, unless the text is empty.
    pub fn parse(value: &str) -> (arg: Option<RevisionArg>)
        ensures
            arg.is_some() == (value@.len() > 0),
            arg.is_some() ==> arg.unwrap().0@ == value@,
    {
        if value.is_empty() {
            None
        } else {
            Some(RevisionArg(value.to_owned()))
        }
    }

    /// The expression.
    pub fn as_str(&self) -> (text: &str)
        ensures
            text@ == self.0@,
    {
        self.0.as_str()
    }
}

/// Helper to reformat content of log-like commands.
#[derive(Debug, PartialEq, Eq, Structural, Clone, Copy)]
pub enum LogContentFormat {
    NoWrap,
    Wrap { term_width: usize },
}

/// The width that is assumed of a terminal that does not tell its own.
pub const DEFAULT_TERM_WIDTH: u16 = 80;

impl LogContentFormat {
    /// The format for the setting `ui.log-word-wrap` and the width of the
    /// terminal, where it is known.
    pub fn new(word_wrap: bool, term_width: Option<u16>) -> (format: Self)
        ensures
            !word_wrap ==> format == LogContentFormat::NoWrap,
            word_wrap ==> format == (LogContentFormat::Wrap {
                term_width: match term_width {
                    Some(width) => width as usize,
                    None => DEFAULT_TERM_WIDTH as usize,
                },
            }),
    {
        if word_wrap {
            let width = match term_width {
                Some(width) => width,
                None => DEFAULT_TERM_WIDTH,
            };
            LogContentFormat::Wrap { term_width: width as usize }
        } else {
            LogContentFormat::NoWrap
        }
    }

    /// The width to wrap the content at, beside a graph of the given
    /// width: what the graph leaves of the terminal, and nothing where the
    /// content is not wrapped.
    pub fn wrap_width(&self, graph_width: usize) -> (width: Option<usize>)
        ensures
            *self == LogContentFormat::NoWrap ==> width.is_none(),
            self is Wrap ==> width == Some(
                if self->term_width >= graph_width {
                    (self->term_width - graph_width) as usize
                } else {
                    0usize
                },
            ),
    {
        match self {
            LogContentFormat::NoWrap => None,
            LogContentFormat::Wrap { term_width } => {
                if *term_width >= graph_width {
                    Some(*term_width - graph_width)
                } else {
                    Some(0)
                }
            },
        }
    }
}

/// The file that a trace is written to: the one that the environment
/// names, or, where it names none, one named after the time in seconds.
pub fn trace_file_name(requested: &str, now_secs: u64) -> (filename: String)
    ensures
        requested@.len() > 0 ==> filename@ == requested@,
        requested@.len() == 0 ==> filename@ == "jj-trace-"@ + spec_decimal(now_secs as nat)
            + ".json"@,
{
    if requested.is_empty() {
        let secs = decimal(now_secs);
        let mut filename = glue("jj-trace-", secs.as_str());
        filename.append(".json");
        filename
    } else {
        requested.to_owned()
    }
}

} // verus!
