//! The errors of a command and how a command's result is reported.
//!
//! An error is the user's to act on, a fault of the configuration or of the
//! command line, a broken pipe, or an internal fault that no user can mend.
//! Each carries the text to show; what caused it is kept as the chain of the
//! messages of its sources, outermost first.

use crate::text::{
    clone_optional_string, clone_strings, decimal, glue, join, optional_string_view, spec_decimal,
    spec_join, strings_view,
};
use vstd::prelude::*;
use vstd::string::*;

verus! {

/// An error message with the messages of what caused it.
#[derive(Debug, PartialEq, Eq)]
pub struct ErrorChain {
    pub message: String,
    pub sources: Vec<String>,
}

pub struct ErrorChainView {
    pub message: Seq<char>,
    pub sources: Seq<Seq<char>>,
}

impl View for ErrorChain {
    type V = ErrorChainView;

    open spec fn view(&self) -> ErrorChainView {
        ErrorChainView { message: self.message@, sources: strings_view(self.sources@) }
    }
}

impl ErrorChainView {
    /// The chain with a new message put in front of it.
    pub open spec fn wrapped(self, message: Seq<char>) -> ErrorChainView {
        ErrorChainView { message, sources: seq![self.message] + self.sources }
    }
}

impl ErrorChain {
    /// An error that nothing else caused.
    pub fn new(message: &str) -> (chain: Self)
        ensures
            chain@.message == message@,
            chain@.sources == Seq::<Seq<char>>::empty(),
    {
        let chain = ErrorChain { message: message.to_owned(), sources: Vec::new() };
        assert(chain@.sources =~= Seq::<Seq<char>>::empty());
        chain
    }

    /// Wraps an error with a message for the user: the error becomes the
    /// first source of the new one.
    pub fn with_message(message: &str, source: ErrorChain) -> (chain: Self)
        ensures
            chain@ == source@.wrapped(message@),
    {
        let mut sources: Vec<String> = Vec::new();
        sources.push(source.message);
        let mut i: usize = 0;
        while i < source.sources.len()
            invariant
                i <= source.sources.len(),
                sources.len() == i + 1,
                sources@[0]@ == source.message@,
                forall|j: int| 0 <= j < i ==> sources@[j + 1]@ == source.sources@[j]@,
            decreases source.sources.len() - i,
        {
            sources.push(source.sources[i].clone());
            i += 1;
        }
        let chain = ErrorChain { message: message.to_owned(), sources };
        assert(chain@.sources =~= seq![source@.message] + source@.sources);
        chain
    }
}

impl Clone for ErrorChain {
    fn clone(&self) -> (copy: Self)
        ensures
            copy@ == self@,
    {
        ErrorChain { message: self.message.clone(), sources: clone_strings(&self.sources) }
    }
}

/// What kind of message the command-line parser has to show.
#[derive(Debug, PartialEq, Eq, Structural, Clone, Copy)]
pub enum ClapErrorKind {
    /// The help text was asked for.
    DisplayHelp,
    /// The help text is shown because no argument or subcommand was given.
    DisplayHelpOnMissingArgumentOrSubcommand,
    /// The version was asked for.
    DisplayVersion,
    /// The command line is invalid.
    Other,
}

/// A message of the command-line parser, rendered plainly and with colours.
#[derive(Debug, PartialEq, Eq)]
pub struct ClapError {
    pub kind: ClapErrorKind,
    pub rendered: String,
    pub rendered_ansi: String,
}

pub struct ClapErrorView {
    pub kind: ClapErrorKind,
    pub rendered: Seq<char>,
    pub rendered_ansi: Seq<char>,
}

impl View for ClapError {
    type V = ClapErrorView;

    open spec fn view(&self) -> ClapErrorView {
        ClapErrorView {
            kind: self.kind,
            rendered: self.rendered@,
            rendered_ansi: self.rendered_ansi@,
        }
    }
}

#[derive(Debug, PartialEq, Eq)]
pub enum CommandError {
    UserError { err: ErrorChain, hint: Option<String> },
    ConfigError(String),
    /// Invalid command line
    CliError(String),
    /// Invalid command line detected by clap
    ClapCliError(ClapError),
    BrokenPipe,
    InternalError(ErrorChain),
}

pub enum CommandErrorView {
    UserError { err: ErrorChainView, hint: Option<Seq<char>> },
    ConfigError(Seq<char>),
    CliError(Seq<char>),
    ClapCliError(ClapErrorView),
    BrokenPipe,
    InternalError(ErrorChainView),
}

impl View for CommandError {
    type V = CommandErrorView;

    open spec fn view(&self) -> CommandErrorView {
        match self {
            CommandError::UserError { err, hint } => CommandErrorView::UserError {
                err: err@,
                hint: optional_string_view(*hint),
            },
            CommandError::ConfigError(message) => CommandErrorView::ConfigError(message@),
            CommandError::CliError(message) => CommandErrorView::CliError(message@),
            CommandError::ClapCliError(inner) => CommandErrorView::ClapCliError(inner@),
            CommandError::BrokenPipe => CommandErrorView::BrokenPipe,
            CommandError::InternalError(err) => CommandErrorView::InternalError(err@),
        }
    }
}

impl Clone for CommandError {
    fn clone(&self) -> (copy: Self)
        ensures
            copy@ == self@,
    {
        match self {
            CommandError::UserError { err, hint } => CommandError::UserError {
                err: err.clone(),
                hint: clone_optional_string(hint),
            },
            CommandError::ConfigError(message) => CommandError::ConfigError(message.clone()),
            CommandError::CliError(message) => CommandError::CliError(message.clone()),
            CommandError::ClapCliError(inner) => CommandError::ClapCliError(
                ClapError {
                    kind: inner.kind,
                    rendered: inner.rendered.clone(),
                    rendered_ansi: inner.rendered_ansi.clone(),
                },
            ),
            CommandError::BrokenPipe => CommandError::BrokenPipe,
            CommandError::InternalError(err) => CommandError::InternalError(err.clone()),
        }
    }
}

pub fn user_error(err: ErrorChain) -> (error: CommandError)
    ensures
        error@ == (CommandErrorView::UserError { err: err@, hint: None }),
{
    user_error_with_hint_opt(err, None)
}

pub fn user_error_with_hint(err: ErrorChain, hint: &str) -> (error: CommandError)
    ensures
        error@ == (CommandErrorView::UserError { err: err@, hint: Some(hint@) }),
{
    user_error_with_hint_opt(err, Some(hint.to_owned()))
}

pub fn user_error_with_message(message: &str, source: ErrorChain) -> (error: CommandError)
    ensures
        error@ == (CommandErrorView::UserError { err: source@.wrapped(message@), hint: None }),
{
    user_error_with_hint_opt(ErrorChain::with_message(message, source), None)
}

pub fn user_error_with_message_and_hint(message: &str, hint: &str, source: ErrorChain) -> (error:
    CommandError)
    ensures
        error@ == (CommandErrorView::UserError {
            err: source@.wrapped(message@),
            hint: Some(hint@),
        }),
{
    user_error_with_hint_opt(ErrorChain::with_message(message, source), Some(hint.to_owned()))
}

pub fn user_error_with_hint_opt(err: ErrorChain, hint: Option<String>) -> (error: CommandError)
    ensures
        error@ == (CommandErrorView::UserError { err: err@, hint: optional_string_view(hint) }),
{
    CommandError::UserError { err, hint }
}

pub fn internal_error(err: ErrorChain) -> (error: CommandError)
    ensures
        error@ == CommandErrorView::InternalError(err@),
{
    CommandError::InternalError(err)
}

pub fn internal_error_with_message(message: &str, source: ErrorChain) -> (error: CommandError)
    ensures
        error@ == CommandErrorView::InternalError(source@.wrapped(message@)),
{
    CommandError::InternalError(ErrorChain::with_message(message, source))
}

/// Where a line of output goes.
#[derive(Debug, PartialEq, Eq, Structural, Clone, Copy)]
pub enum OutputStream {
    /// Standard output.
    Stdout,
    /// Standard error.
    Stderr,
    /// Standard error, marked as a warning.
    Warning,
    /// Standard error, marked as an error.
    Error,
    /// Standard error, marked as a hint.
    Hint,
}

/// A piece of text for one of the output streams.
#[derive(Debug, PartialEq, Eq)]
pub struct OutputLine {
    pub stream: OutputStream,
    pub text: String,
}

impl View for OutputLine {
    type V = (OutputStream, Seq<char>);

    open spec fn view(&self) -> (OutputStream, Seq<char>) {
        (self.stream, self.text@)
    }
}

/// The lines of a list, as plain values.
pub open spec fn lines_view(lines: Seq<OutputLine>) -> Seq<(OutputStream, Seq<char>)> {
    Seq::new(lines.len(), |i: int| lines[i]@)
}

/// How a command ended: the exit code of the process, what to print, and
/// whether the output is to go through the pager.
#[derive(Debug, PartialEq, Eq)]
pub struct CommandOutcome {
    pub exit_code: u8,
    pub output: Vec<OutputLine>,
    pub request_pager: bool,
}

pub struct CommandOutcomeView {
    pub exit_code: u8,
    pub output: Seq<(OutputStream, Seq<char>)>,
    pub request_pager: bool,
}

impl View for CommandOutcome {
    type V = CommandOutcomeView;

    open spec fn view(&self) -> CommandOutcomeView {
        CommandOutcomeView {
            exit_code: self.exit_code,
            output: lines_view(self.output@),
            request_pager: self.request_pager,
        }
    }
}

/// The exit code of a command that stopped on a broken pipe.
pub const BROKEN_PIPE_EXIT_CODE: u8 = 3;

/// The lines that name the sources of an error: one line for a single
/// source, else a heading and one numbered line for each source.
pub open spec fn spec_source_lines(sources: Seq<Seq<char>>) -> Seq<(OutputStream, Seq<char>)> {
    if sources.len() == 0 {
        Seq::empty()
    } else if sources.len() == 1 {
        seq![(OutputStream::Stderr, "Caused by: "@ + sources[0] + "\n"@)]
    } else {
        seq![(OutputStream::Stderr, "Caused by:\n"@)] + Seq::new(
            sources.len(),
            |i: int| (OutputStream::Stderr, spec_decimal((i + 1) as nat) + ": "@ + sources[i] + "\n"@),
        )
    }
}

/// The line that gives a hint, if there is one.
pub open spec fn spec_hint_lines(hint: Option<Seq<char>>) -> Seq<(OutputStream, Seq<char>)> {
    match hint {
        Some(text) => seq![(OutputStream::Hint, "Hint: "@ + text + "\n"@)],
        None => Seq::empty(),
    }
}

/// Whether the message of the command-line parser goes to standard output
/// with a successful exit.
pub open spec fn clap_succeeds(kind: ClapErrorKind) -> bool {
    kind == ClapErrorKind::DisplayHelp || kind == ClapErrorKind::DisplayVersion
}

/// Whether the message of the command-line parser is shown in the pager.
pub open spec fn clap_pages(kind: ClapErrorKind) -> bool {
    kind == ClapErrorKind::DisplayHelp || kind
        == ClapErrorKind::DisplayHelpOnMissingArgumentOrSubcommand
}

/// What [`handle_command_result`] returns.
pub open spec fn spec_handle_command_result(
    result: Result<(), CommandErrorView>,
    color: bool,
) -> CommandOutcomeView {
    match result {
        Ok(()) => CommandOutcomeView { exit_code: 0, output: Seq::empty(), request_pager: false },
        Err(CommandErrorView::UserError { err, hint }) => CommandOutcomeView {
            exit_code: 1,
            output: seq![(OutputStream::Error, "Error: "@ + err.message + "\n"@)]
                + spec_source_lines(err.sources) + spec_hint_lines(hint),
            request_pager: false,
        },
        Err(CommandErrorView::ConfigError(message)) => CommandOutcomeView {
            exit_code: 1,
            output: seq![
                (OutputStream::Error, "Config error: "@ + message + "\n"@),
                (
                    OutputStream::Hint,
                    "For help, see https://github.com/martinvonz/jj/blob/main/docs/config.md.\n"@,
                ),
            ],
            request_pager: false,
        },
        Err(CommandErrorView::CliError(message)) => CommandOutcomeView {
            exit_code: 2,
            output: seq![(OutputStream::Error, "Error: "@ + message + "\n"@)],
            request_pager: false,
        },
        Err(CommandErrorView::ClapCliError(inner)) => {
            let text = if color {
                inner.rendered_ansi
            } else {
                inner.rendered
            };
            if clap_succeeds(inner.kind) {
                CommandOutcomeView {
                    exit_code: 0,
                    output: seq![(OutputStream::Stdout, text)],
                    request_pager: clap_pages(inner.kind),
                }
            } else {
                CommandOutcomeView {
                    exit_code: 2,
                    output: seq![(OutputStream::Stderr, text)],
                    request_pager: clap_pages(inner.kind),
                }
            }
        },
        Err(CommandErrorView::BrokenPipe) => CommandOutcomeView {
            exit_code: BROKEN_PIPE_EXIT_CODE,
            output: Seq::empty(),
            request_pager: false,
        },
        Err(CommandErrorView::InternalError(err)) => CommandOutcomeView {
            exit_code: 255,
            output: seq![(OutputStream::Error, "Internal error: "@ + err.message + "\n"@)]
                + spec_source_lines(err.sources),
            request_pager: false,
        },
    }
}

/// The view of the result of a command.
pub open spec fn result_view(result: Result<(), CommandError>) -> Result<(), CommandErrorView> {
    match result {
        Ok(()) => Ok(()),
        Err(error) => Err(error@),
    }
}

fn line(stream: OutputStream, prefix: &str, body: &str) -> (out: OutputLine)
    ensures
        out@ == (stream, prefix@ + body@ + "\n"@),
{
    let mut text = glue(prefix, body);
    text.append("\n");
    OutputLine { stream, text }
}

/// Appends the lines that name the sources of an error.
fn push_source_lines(output: &mut Vec<OutputLine>, sources: &Vec<String>)
    ensures
        lines_view(final(output)@) == lines_view(old(output)@) + spec_source_lines(
            strings_view(sources@),
        ),
{
    let ghost before = lines_view(output@);
    let ghost names = strings_view(sources@);
    if sources.len() == 0 {
        assert(lines_view(output@) =~= before + spec_source_lines(names));
    } else if sources.len() == 1 {
        output.push(line(OutputStream::Stderr, "Caused by: ", sources[0].as_str()));
        assert(lines_view(output@) =~= before + spec_source_lines(names));
    } else {
        output.push(OutputLine { stream: OutputStream::Stderr, text: "Caused by:\n".to_owned() });
        let ghost numbered = Seq::new(
            names.len(),
            |i: int| (OutputStream::Stderr, spec_decimal((i + 1) as nat) + ": "@ + names[i] + "\n"@),
        );
        let ghost headed = before + seq![(OutputStream::Stderr, "Caused by:\n"@)];
        assert(lines_view(output@) =~= headed);
        let mut i: usize = 0;
        while i < sources.len()
            invariant
                i <= sources.len(),
                names == strings_view(sources@),
                numbered == Seq::new(
                    names.len(),
                    |i: int|
                        (
                            OutputStream::Stderr,
                            spec_decimal((i + 1) as nat) + ": "@ + names[i] + "\n"@,
                        ),
                ),
                lines_view(output@) == headed + numbered.subrange(0, i as int),
            decreases sources.len() - i,
        {
            let number = decimal((i + 1) as u64);
            let mut text = glue(number.as_str(), ": ");
            text.append(sources[i].as_str());
            text.append("\n");
            assert(names[i as int] == sources@[i as int]@);
            assert(text@ =~= spec_decimal((i + 1) as nat) + ": "@ + names[i as int] + "\n"@);
            let ghost shown = lines_view(output@);
            let ghost entry = (OutputStream::Stderr, text@);
            assert(numbered[i as int] == entry);
            output.push(OutputLine { stream: OutputStream::Stderr, text });
            assert(lines_view(output@) =~= shown.push(entry));
            assert(numbered.subrange(0, i + 1) =~= numbered.subrange(0, i as int).push(entry));
            assert(lines_view(output@) =~= headed + numbered.subrange(0, i + 1));
            i += 1;
        }
        assert(numbered.subrange(0, names.len() as int) =~= numbered);
        assert(headed + numbered =~= before + spec_source_lines(names));
    }
}

/// Turns the result of a command into what the process shows and the code
/// it exits with. `color` says whether the terminal takes colours.
pub fn handle_command_result(result: &Result<(), CommandError>, color: bool) -> (outcome:
    CommandOutcome)
    ensures
        outcome@ == spec_handle_command_result(result_view(*result), color),
{
    let mut output: Vec<OutputLine> = Vec::new();
    assert(lines_view(output@) =~= Seq::empty());
    match result {
        Ok(()) => CommandOutcome { exit_code: 0, output, request_pager: false },
        Err(CommandError::UserError { err, hint }) => {
            output.push(line(OutputStream::Error, "Error: ", err.message.as_str()));
            let ghost first = lines_view(output@);
            assert(first =~= seq![(OutputStream::Error, "Error: "@ + err@.message + "\n"@)]);
            push_source_lines(&mut output, &err.sources);
            let ghost second = lines_view(output@);
            match hint {
                Some(text) => {
                    output.push(line(OutputStream::Hint, "Hint: ", text.as_str()));
                },
                None => {},
            }
            assert(lines_view(output@) =~= second + spec_hint_lines(optional_string_view(*hint)));
            CommandOutcome { exit_code: 1, output, request_pager: false }
        },
        Err(CommandError::ConfigError(message)) => {
            output.push(line(OutputStream::Error, "Config error: ", message.as_str()));
            output.push(
                OutputLine {
                    stream: OutputStream::Hint,
                    text:
                        "For help, see https://github.com/martinvonz/jj/blob/main/docs/config.md.\n".to_owned(),
                },
            );
            assert(lines_view(output@) =~= seq![
                (OutputStream::Error, "Config error: "@ + message@ + "\n"@),
                (
                    OutputStream::Hint,
                    "For help, see https://github.com/martinvonz/jj/blob/main/docs/config.md.\n"@,
                ),
            ]);
            CommandOutcome { exit_code: 1, output, request_pager: false }
        },
        Err(CommandError::CliError(message)) => {
            output.push(line(OutputStream::Error, "Error: ", message.as_str()));
            assert(lines_view(output@) =~= seq![
                (OutputStream::Error, "Error: "@ + message@ + "\n"@),
            ]);
            CommandOutcome { exit_code: 2, output, request_pager: false }
        },
        Err(CommandError::ClapCliError(inner)) => {
            let text = if color {
                inner.rendered_ansi.clone()
            } else {
                inner.rendered.clone()
            };
            let request_pager = match inner.kind {
                ClapErrorKind::DisplayHelp
                | ClapErrorKind::DisplayHelpOnMissingArgumentOrSubcommand => true,
                _ => false,
            };
            match inner.kind {
                ClapErrorKind::DisplayHelp | ClapErrorKind::DisplayVersion => {
                    let ghost shown = text@;
                    output.push(OutputLine { stream: OutputStream::Stdout, text });
                    assert(lines_view(output@) =~= seq![(OutputStream::Stdout, shown)]);
                    CommandOutcome { exit_code: 0, output, request_pager }
                },
                _ => {
                    let ghost shown = text@;
                    output.push(OutputLine { stream: OutputStream::Stderr, text });
                    assert(lines_view(output@) =~= seq![(OutputStream::Stderr, shown)]);
                    CommandOutcome { exit_code: 2, output, request_pager }
                },
            }
        },
        Err(CommandError::BrokenPipe) => {
            // A broken pipe is not an error, but a signal to exit gracefully.
            CommandOutcome { exit_code: BROKEN_PIPE_EXIT_CODE, output, request_pager: false }
        },
        Err(CommandError::InternalError(err)) => {
            output.push(line(OutputStream::Error, "Internal error: ", err.message.as_str()));
            assert(lines_view(output@) =~= seq![
                (OutputStream::Error, "Internal error: "@ + err@.message + "\n"@),
            ]);
            push_source_lines(&mut output, &err.sources);
            CommandOutcome { exit_code: 255, output, request_pager: false }
        },
    }
}

/// A name between double quotes.
pub open spec fn spec_quoted(name: Seq<char>) -> Seq<char> {
    "\""@ + name + "\""@
}

/// The hint that offers names that come close to one that was not found.
pub open spec fn spec_similarity_hint(candidates: Seq<Seq<char>>) -> Option<Seq<char>> {
    if candidates.len() == 0 {
        None
    } else {
        Some(
            "Did you mean "@ + spec_join(
                candidates.map_values(|name: Seq<char>| spec_quoted(name)),
                ", "@,
            ) + "?"@,
        )
    }
}

/// The hint that offers names that come close to one that was not found:
/// none where there is no such name, else the names, each between double
/// quotes, with commas between them.
pub fn format_similarity_hint(candidates: &Vec<String>) -> (hint: Option<String>)
    ensures
        optional_string_view(hint) == spec_similarity_hint(strings_view(candidates@)),
{
    if candidates.len() == 0 {
        return None;
    }
    let mut quoted_names: Vec<String> = Vec::new();
    let mut i: usize = 0;
    while i < candidates.len()
        invariant
            i <= candidates.len(),
            quoted_names.len() == i,
            forall|j: int|
                0 <= j < i ==> (#[trigger] quoted_names@[j])@ == spec_quoted(candidates@[j]@),
        decreases candidates.len() - i,
    {
        let mut quoted = glue("\"", candidates[i].as_str());
        quoted.append("\"");
        quoted_names.push(quoted);
        i += 1;
    }
    assert(strings_view(quoted_names@) =~= strings_view(candidates@).map_values(
        |name: Seq<char>| spec_quoted(name),
    ));
    let names = join(&quoted_names, ", ");
    let mut hint = glue("Did you mean ", names.as_str());
    hint.append("?");
    Some(hint)
}

} // verus!
