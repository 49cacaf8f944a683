use jj_session::command_error::{CommandError, ErrorChain};
use jj_session::config_edit::{
    check_editor_exit, check_overwrite, check_parent_table, config_file_of, editor_config_error,
    editor_spawn_error, file_error, no_user_config_path, split_config_key,
    temp_file_create_error, temp_file_read_error, ConfigFile, ConfigSource, FileAction,
    TomlItemKind,
};

fn user(message: &str, sources: &[&str]) -> CommandError {
    CommandError::UserError {
        err: ErrorChain {
            message: message.to_string(),
            sources: sources.iter().map(|s| s.to_string()).collect(),
        },
        hint: None,
    }
}

fn names(items: &[&str]) -> Vec<String> {
    items.iter().map(|s| s.to_string()).collect()
}

#[test]
fn config_key_is_split_at_dots() {
    assert_eq!(split_config_key("ui.color"), (names(&["ui"]), "color".to_string()));
    assert_eq!(split_config_key("a.b.c"), (names(&["a", "b"]), "c".to_string()));
    assert_eq!(split_config_key("name"), (names(&[]), "name".to_string()));
    assert_eq!(split_config_key(""), (names(&[]), String::new()));
    assert_eq!(split_config_key("a..b."), (names(&["a", "", "b"]), String::new()));
}

#[test]
fn setting_does_not_pass_through_a_value() {
    assert_eq!(check_parent_table("a.b", TomlItemKind::Absent), Ok(()));
    assert_eq!(check_parent_table("a.b", TomlItemKind::Table), Ok(()));
    let error = user("Failed to set a.b: would overwrite non-table value with parent table", &[]);
    assert_eq!(check_parent_table("a.b", TomlItemKind::Value), Err(error.clone()));
    assert_eq!(check_parent_table("a.b", TomlItemKind::ArrayOfTables), Err(error));
}

#[test]
fn setting_does_not_replace_a_table() {
    assert_eq!(check_overwrite("a.b", TomlItemKind::Absent), Ok(()));
    assert_eq!(check_overwrite("a.b", TomlItemKind::Value), Ok(()));
    let error = user("Failed to set a.b: would overwrite entire table", &[]);
    assert_eq!(check_overwrite("a.b", TomlItemKind::Table), Err(error.clone()));
    assert_eq!(check_overwrite("a.b", TomlItemKind::ArrayOfTables), Err(error));
}

#[test]
fn file_errors_name_the_action_and_the_file() {
    let cause = || ErrorChain { message: "denied".to_string(), sources: vec![] };
    assert_eq!(
        file_error(FileAction::Read, "/c.toml", cause()),
        user("Failed to read file /c.toml", &["denied"])
    );
    assert_eq!(
        file_error(FileAction::Parse, "/c.toml", cause()),
        user("Failed to parse file /c.toml", &["denied"])
    );
    assert_eq!(
        file_error(FileAction::Write, "/c.toml", cause()),
        user("Failed to write file /c.toml", &["denied"])
    );
}

#[test]
fn only_user_and_repo_config_can_be_edited() {
    assert_eq!(config_file_of(ConfigSource::User), Ok(ConfigFile::User));
    assert_eq!(config_file_of(ConfigSource::Repo), Ok(ConfigFile::Repo));
    assert_eq!(
        config_file_of(ConfigSource::Default),
        Err(user("Can't get path for config source Default", &[]))
    );
    assert_eq!(
        config_file_of(ConfigSource::Env),
        Err(user("Can't get path for config source Env", &[]))
    );
    assert_eq!(
        config_file_of(ConfigSource::CommandArg),
        Err(user("Can't get path for config source CommandArg", &[]))
    );
    assert_eq!(no_user_config_path(), user("No repo config path found to edit", &[]));
}

#[test]
fn editor_errors_name_the_editor() {
    let cause = || ErrorChain { message: "not found".to_string(), sources: vec![] };
    assert_eq!(
        editor_config_error("invalid type"),
        CommandError::ConfigError("ui.editor: invalid type".to_string())
    );
    assert_eq!(
        editor_spawn_error("vim", cause()),
        user("Failed to run editor 'vim'", &["not found"])
    );
    assert_eq!(check_editor_exit("vim -f", true), Ok(()));
    assert_eq!(
        check_editor_exit("vim -f", false),
        Err(user("Editor 'vim -f' exited with an error", &[]))
    );
    assert_eq!(
        temp_file_create_error("description", "/tmp", cause()),
        user("Failed to create description file in \"/tmp\"", &["not found"])
    );
    assert_eq!(
        temp_file_read_error("description", "/tmp/editor-1.txt", cause()),
        user("Failed to read description file \"/tmp/editor-1.txt\"", &["not found"])
    );
}
