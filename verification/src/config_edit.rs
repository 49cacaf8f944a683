//! Setting a value in a configuration file, and editing files with the
//! user's editor: the decisions and the messages. Reading, parsing and
//! writing the file, and running the editor, are done elsewhere.

use crate::command_error::{
    user_error, user_error_with_message, CommandError, CommandErrorView, ErrorChain,
    ErrorChainView,
};
use crate::text::{glue, push_char, strings_view};
use vstd::prelude::*;
use vstd::string::*;

verus! {

/// A text cut at every occurrence of a separator. There is one part more
/// than there are separators, so there is always at least one part.
pub open spec fn spec_split(s: Seq<char>, separator: char) -> Seq<Seq<char>>
    decreases s.len(),
{
    if s.len() == 0 {
        seq![Seq::empty()]
    } else {
        let earlier = spec_split(s.drop_last(), separator);
        if s.last() == separator {
            earlier.push(Seq::empty())
        } else {
            earlier.drop_last().push(earlier.last().push(s.last()))
        }
    }
}

/// A split has at least one part.
pub proof fn lemma_split_nonempty(s: Seq<char>, separator: char)
    ensures
        spec_split(s, separator).len() >= 1,
    decreases s.len(),
{
    if s.len() > 0 {
        lemma_split_nonempty(s.drop_last(), separator);
    }
}

/// Splits the key of a setting at its dots: the names of the tables that
/// lead to the setting, and the name of the setting in the last of them.
pub fn split_config_key(key: &str) -> (parts: (Vec<String>, String))
    ensures
        strings_view(parts.0@).push(parts.1@) == spec_split(key@, '.'),
{
    let mut tables: Vec<String> = Vec::new();
    let mut current = String::new();
    assert(key@.take(0) =~= Seq::<char>::empty());
    assert(strings_view(tables@).push(current@) =~= spec_split(key@.take(0), '.'));
    for c in it: key.chars()
        invariant
            it.seq() == key@,
            strings_view(tables@).push(current@) == spec_split(key@.take(it.index() as int), '.'),
    {
        let ghost seen = key@.take(it.index() as int);
        let ghost more = key@.take(it.index() + 1);
        let ghost earlier = spec_split(seen, '.');
        let ghost before = strings_view(tables@);
        let ghost word = current@;
        proof {
            assert(more.drop_last() =~= seen);
            assert(more.last() == c);
            assert(earlier.drop_last() =~= before);
            assert(earlier.last() == word);
        }
        if c == '.' {
            tables.push(current);
            current = String::new();
            assert(strings_view(tables@) =~= before.push(word));
            assert(strings_view(tables@).push(current@) =~= earlier.push(Seq::empty()));
        } else {
            push_char(&mut current, c);
            assert(strings_view(tables@).push(current@) =~= earlier.drop_last().push(
                earlier.last().push(c),
            ));
        }
    }
    assert(key@.take(key@.len() as int) =~= key@);
    (tables, current)
}

/// What a table of a configuration file holds under a name.
#[derive(Debug, PartialEq, Eq, Structural, Clone, Copy)]
pub enum TomlItemKind {
    /// Nothing.
    Absent,
    /// A value.
    Value,
    /// A table.
    Table,
    /// An array of tables.
    ArrayOfTables,
}

/// The error of a setting whose path leads through a value.
pub open spec fn spec_overwrites_value(key: Seq<char>) -> CommandErrorView {
    CommandErrorView::UserError {
        err: ErrorChainView {
            message: "Failed to set "@ + key
                + ": would overwrite non-table value with parent table"@,
            sources: Seq::empty(),
        },
        hint: None,
    }
}

/// The error of a setting that would take the place of a table.
pub open spec fn spec_overwrites_table(key: Seq<char>) -> CommandErrorView {
    CommandErrorView::UserError {
        err: ErrorChainView {
            message: "Failed to set "@ + key + ": would overwrite entire table"@,
            sources: Seq::empty(),
        },
        hint: None,
    }
}

/// Checks what stands on the path to a setting: a table, or nothing, in
/// which case a table is made. A value or an array of tables cannot be
/// entered.
pub fn check_parent_table(key: &str, existing: TomlItemKind) -> (outcome: Result<(), CommandError>)
    ensures
        outcome.is_ok() == (existing == TomlItemKind::Absent || existing == TomlItemKind::Table),
        outcome.is_err() ==> outcome->Err_0@ == spec_overwrites_value(key@),
{
    match existing {
        TomlItemKind::Absent | TomlItemKind::Table => Ok(()),
        TomlItemKind::Value | TomlItemKind::ArrayOfTables => {
            let mut message = glue("Failed to set ", key);
            message.append(": would overwrite non-table value with parent table");
            let err = ErrorChain { message, sources: Vec::new() };
            assert(err@.sources =~= Seq::<Seq<char>>::empty());
            Err(user_error(err))
        },
    }
}

/// Checks what the setting would replace: nothing or a value. A table or
/// an array of tables is not overwritten with a value.
pub fn check_overwrite(key: &str, existing: TomlItemKind) -> (outcome: Result<(), CommandError>)
    ensures
        outcome.is_ok() == (existing == TomlItemKind::Absent || existing == TomlItemKind::Value),
        outcome.is_err() ==> outcome->Err_0@ == spec_overwrites_table(key@),
{
    match existing {
        TomlItemKind::Absent | TomlItemKind::Value => Ok(()),
        TomlItemKind::Table | TomlItemKind::ArrayOfTables => {
            let mut message = glue("Failed to set ", key);
            message.append(": would overwrite entire table");
            let err = ErrorChain { message, sources: Vec::new() };
            assert(err@.sources =~= Seq::<Seq<char>>::empty());
            Err(user_error(err))
        },
    }
}

/// What was being done to a file when it failed.
#[derive(Debug, PartialEq, Eq, Structural, Clone, Copy)]
pub enum FileAction {
    Read,
    Parse,
    Write,
}

impl FileAction {
    /// The verb of the action.
    pub open spec fn spec_verb(self) -> Seq<char> {
        match self {
            FileAction::Read => "read"@,
            FileAction::Parse => "parse"@,
            FileAction::Write => "write"@,
        }
    }
}

/// The error of a command that could not read, parse or write a file.
pub fn file_error(action: FileAction, path: &str, cause: ErrorChain) -> (error: CommandError)
    ensures
        error@ == (CommandErrorView::UserError {
            err: cause@.wrapped("Failed to "@ + action.spec_verb() + " file "@ + path@),
            hint: None,
        }),
{
    let verb = match action {
        FileAction::Read => "read",
        FileAction::Parse => "parse",
        FileAction::Write => "write",
    };
    let mut message = glue("Failed to ", verb);
    message.append(" file ");
    message.append(path);
    user_error_with_message(message.as_str(), cause)
}

/// Where a piece of configuration comes from.
#[derive(Debug, PartialEq, Eq, Structural, Clone, Copy)]
pub enum ConfigSource {
    Default,
    Env,
    User,
    Repo,
    CommandArg,
}

impl ConfigSource {
    /// The name of the source.
    pub open spec fn spec_name(self) -> Seq<char> {
        match self {
            ConfigSource::Default => "Default"@,
            ConfigSource::Env => "Env"@,
            ConfigSource::User => "User"@,
            ConfigSource::Repo => "Repo"@,
            ConfigSource::CommandArg => "CommandArg"@,
        }
    }
}

/// The configuration file that a command edits.
#[derive(Debug, PartialEq, Eq, Structural, Clone, Copy)]
pub enum ConfigFile {
    /// The file of the user.
    User,
    /// The file `config.toml` of the repository.
    Repo,
}

/// The file that holds the configuration of a source: the user's or the
/// repository's. No other source has a file to edit.
pub fn config_file_of(config_source: ConfigSource) -> (outcome: Result<ConfigFile, CommandError>)
    ensures
        config_source == ConfigSource::User ==> outcome == Ok::<ConfigFile, CommandError>(
            ConfigFile::User,
        ),
        config_source == ConfigSource::Repo ==> outcome == Ok::<ConfigFile, CommandError>(
            ConfigFile::Repo,
        ),
        config_source != ConfigSource::User && config_source != ConfigSource::Repo
            ==> outcome.is_err() && outcome->Err_0@ == (CommandErrorView::UserError {
            err: ErrorChainView {
                message: "Can't get path for config source "@ + config_source.spec_name(),
                sources: Seq::empty(),
            },
            hint: None,
        }),
{
    let name = match config_source {
        ConfigSource::User => {
            return Ok(ConfigFile::User);
        },
        ConfigSource::Repo => {
            return Ok(ConfigFile::Repo);
        },
        ConfigSource::Default => "Default",
        ConfigSource::Env => "Env",
        ConfigSource::CommandArg => "CommandArg",
    };
    let err = ErrorChain {
        message: glue("Can't get path for config source ", name),
        sources: Vec::new(),
    };
    assert(err@.sources =~= Seq::<Seq<char>>::empty());
    Err(user_error(err))
}

/// The error of a user without a configuration file to edit.
pub fn no_user_config_path() -> (error: CommandError)
    ensures
        error@ == (CommandErrorView::UserError {
            err: ErrorChainView {
                message: "No repo config path found to edit"@,
                sources: Seq::empty(),
            },
            hint: None,
        }),
{
    user_error(ErrorChain::new("No repo config path found to edit"))
}

/// The error of an editor that is not configured as it should be.
pub fn editor_config_error(cause: &str) -> (error: CommandError)
    ensures
        error@ == CommandErrorView::ConfigError("ui.editor: "@ + cause@),
{
    CommandError::ConfigError(glue("ui.editor: ", cause))
}

/// The error of an editor that could not be started.
pub fn editor_spawn_error(name: &str, cause: ErrorChain) -> (error: CommandError)
    ensures
        error@ == (CommandErrorView::UserError {
            err: cause@.wrapped("Failed to run editor '"@ + name@ + "'"@),
            hint: None,
        }),
{
    // The executable couldn't be found or run; command-line arguments are not relevant
    let mut message = glue("Failed to run editor '", name);
    message.append("'");
    user_error_with_message(message.as_str(), cause)
}

/// Judges how the editor ended: an exit without success is an error.
pub fn check_editor_exit(editor: &str, success: bool) -> (outcome: Result<(), CommandError>)
    ensures
        outcome.is_ok() == success,
        outcome.is_err() ==> outcome->Err_0@ == (CommandErrorView::UserError {
            err: ErrorChainView {
                message: "Editor '"@ + editor@ + "' exited with an error"@,
                sources: Seq::empty(),
            },
            hint: None,
        }),
{
    if !success {
        let mut message = glue("Editor '", editor);
        message.append("' exited with an error");
        let err = ErrorChain { message, sources: Vec::new() };
        assert(err@.sources =~= Seq::<Seq<char>>::empty());
        return Err(user_error(err));
    }
    Ok(())
}

/// The error of a temporary file that could not be made in a directory.
pub fn temp_file_create_error(error_name: &str, dir: &str, cause: ErrorChain) -> (error:
    CommandError)
    ensures
        error@ == (CommandErrorView::UserError {
            err: cause@.wrapped(
                "Failed to create "@ + error_name@ + " file in \""@ + dir@ + "\""@,
            ),
            hint: None,
        }),
{
    let mut message = glue("Failed to create ", error_name);
    message.append(" file in \"");
    message.append(dir);
    message.append("\"");
    user_error_with_message(message.as_str(), cause)
}

/// The error of a temporary file that could not be read back.
pub fn temp_file_read_error(error_name: &str, path: &str, cause: ErrorChain) -> (error: CommandError)
    ensures
        error@ == (CommandErrorView::UserError {
            err: cause@.wrapped("Failed to read "@ + error_name@ + " file \""@ + path@ + "\""@),
            hint: None,
        }),
{
    let mut message = glue("Failed to read ", error_name);
    message.append(" file \"");
    message.append(path);
    message.append("\"");
    user_error_with_message(message.as_str(), cause)
}

} // verus!
