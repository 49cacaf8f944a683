use jj_session::remote_branch::{
    parse_string_pattern, RemoteBranchName, RemoteBranchNamePattern, StringPattern,
    StringPatternParseError,
};

#[test]
fn remote_branch_name_is_written_with_at_sign() {
    let name = RemoteBranchName { branch: "main".to_string(), remote: "origin".to_string() };
    assert_eq!(name.to_string(), "main@origin");
    assert_eq!(name.clone(), name);
}

#[test]
fn string_pattern_defaults_to_exact() {
    assert_eq!(parse_string_pattern("main"), Ok(StringPattern::Exact("main".to_string())));
    assert_eq!(parse_string_pattern(""), Ok(StringPattern::Exact(String::new())));
}

#[test]
fn string_pattern_kinds_are_parsed() {
    assert_eq!(parse_string_pattern("exact:main"), Ok(StringPattern::Exact("main".to_string())));
    assert_eq!(parse_string_pattern("glob:ma*"), Ok(StringPattern::Glob("ma*".to_string())));
    assert_eq!(
        parse_string_pattern("substring:ai"),
        Ok(StringPattern::Substring("ai".to_string()))
    );
    assert_eq!(
        parse_string_pattern("glob:a:b"),
        Ok(StringPattern::Glob("a:b".to_string()))
    );
    assert_eq!(
        StringPattern::from_str_kind("x", "substring"),
        Ok(StringPattern::Substring("x".to_string()))
    );
}

#[test]
fn unknown_pattern_kind_is_refused() {
    let error = parse_string_pattern("regex:a.*").unwrap_err();
    assert_eq!(error, StringPatternParseError::InvalidKind("regex".to_string()));
    assert_eq!(error.to_string(), "Invalid string pattern kind \"regex\"");
    assert_eq!(
        parse_string_pattern(":x"),
        Err(StringPatternParseError::InvalidKind(String::new()))
    );
}

#[test]
fn invalid_glob_is_refused_with_its_message() {
    let error = parse_string_pattern("glob:a[").unwrap_err();
    match &error {
        StringPatternParseError::GlobPattern(message) => {
            assert!(!message.is_empty());
            assert_eq!(&error.to_string(), message);
        }
        other => panic!("unexpected error {other:?}"),
    }
}

#[test]
fn pattern_text_and_exactness() {
    assert!(StringPattern::exact("a").is_exact());
    assert!(!StringPattern::Glob("a*".to_string()).is_exact());
    assert!(!StringPattern::Substring("a".to_string()).is_exact());
    assert_eq!(StringPattern::exact("a").as_str(), "a");
    assert_eq!(StringPattern::Glob("a*".to_string()).as_str(), "a*");
    assert_eq!(StringPattern::Substring("b".to_string()).as_str(), "b");
}

#[test]
fn remote_branch_pattern_splits_at_last_at_sign() {
    let pattern = RemoteBranchNamePattern::from_str("main@origin").unwrap();
    assert_eq!(
        pattern,
        RemoteBranchNamePattern {
            branch: StringPattern::Exact("main".to_string()),
            remote: StringPattern::Exact("origin".to_string()),
        }
    );
    assert!(pattern.is_exact());
    assert_eq!(pattern.to_string(), "main@origin");
    let pattern = RemoteBranchNamePattern::from_str("a@b@origin").unwrap();
    assert_eq!(pattern.branch, StringPattern::Exact("a@b".to_string()));
    assert_eq!(pattern.remote, StringPattern::Exact("origin".to_string()));
}

#[test]
fn remote_branch_pattern_kind_applies_to_both_names() {
    let pattern = RemoteBranchNamePattern::from_str("glob:ma*@or*").unwrap();
    assert_eq!(
        pattern,
        RemoteBranchNamePattern {
            branch: StringPattern::Glob("ma*".to_string()),
            remote: StringPattern::Glob("or*".to_string()),
        }
    );
    assert!(!pattern.is_exact());
    assert_eq!(pattern.to_string(), "ma*@or*");
    let pattern = RemoteBranchNamePattern::from_str("substring:@").unwrap();
    assert_eq!(pattern.branch, StringPattern::Substring(String::new()));
    assert_eq!(pattern.remote, StringPattern::Substring(String::new()));
}

#[test]
fn remote_branch_pattern_needs_a_remote() {
    assert_eq!(
        RemoteBranchNamePattern::from_str("main"),
        Err("remote branch must be specified in branch@remote form".to_string())
    );
    assert_eq!(
        RemoteBranchNamePattern::from_str("glob:main"),
        Err("remote branch must be specified in branch@remote form".to_string())
    );
    assert_eq!(
        RemoteBranchNamePattern::from_str("a@b:c"),
        Err("remote branch must be specified in branch@remote form".to_string())
    );
}

#[test]
fn remote_branch_pattern_reports_pattern_errors() {
    assert_eq!(
        RemoteBranchNamePattern::from_str("regex:a@b"),
        Err("Invalid string pattern kind \"regex\"".to_string())
    );
    let message = RemoteBranchNamePattern::from_str("glob:a@b[").unwrap_err();
    assert!(!message.is_empty());
    assert_ne!(message, "remote branch must be specified in branch@remote form");
}
