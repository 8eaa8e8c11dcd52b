use webstreamer::config::{dotenv_value, resolve_env, EnvError};

#[test]
fn test_env_macro() {
    let value = resolve_env("TEST_VAR", Some("test_value".to_string()), None).unwrap();
    assert_eq!(value, "test_value");
}

#[test]
fn process_environment_wins_over_the_file() {
    let value = resolve_env(
        "KEY",
        Some("from-process".to_string()),
        Some("KEY=from-file\n"),
    )
    .unwrap();
    assert_eq!(value, "from-process");
}

#[test]
fn file_value_is_used_when_the_environment_lacks_the_key() {
    let value = resolve_env("KEY", None, Some("OTHER=x\nKEY=from-file\n")).unwrap();
    assert_eq!(value, "from-file");
}

#[test]
fn first_matching_line_wins() {
    let value = dotenv_value("KEY=first\nKEY=second\n", "KEY").unwrap();
    assert_eq!(value, "first");
}

#[test]
fn value_keeps_everything_after_the_first_equals() {
    let value = dotenv_value("KEY=a=b=c", "KEY").unwrap();
    assert_eq!(value, "a=b=c");
}

#[test]
fn carriage_returns_are_stripped() {
    let value = dotenv_value("KEY=plain\r\nNEXT=x\n", "KEY").unwrap();
    assert_eq!(value, "plain");
}

#[test]
fn missing_key_is_an_error() {
    let err = resolve_env("KEY", None, Some("OTHER=x\n")).unwrap_err();
    assert!(matches!(err, EnvError::MissingKey));
}

#[test]
fn empty_value_counts_as_missing() {
    let err = resolve_env("KEY", None, Some("KEY=\n")).unwrap_err();
    assert!(matches!(err, EnvError::MissingKey));
}

#[test]
fn no_source_at_all_is_its_own_error() {
    let err = resolve_env("KEY", None, None).unwrap_err();
    assert!(matches!(err, EnvError::NoSource));
}

#[test]
fn key_prefix_does_not_match() {
    assert!(dotenv_value("KEY2=x\n", "KEY").is_none());
    assert!(dotenv_value("KE=x\n", "KEY").is_none());
}
