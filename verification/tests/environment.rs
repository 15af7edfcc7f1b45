use mkenv::environment::Environment;
use mkenv::error::{IoErrorKind, VarError};

#[test]
fn a_new_environment_holds_nothing() {
    let env = Environment::new();
    assert!(matches!(env.var("ANY"), Err(VarError::NotPresent)));
    let e = env.read_to_string("/any").unwrap_err();
    assert_eq!(e.kind, IoErrorKind::NotFound);
}

#[test]
fn a_variable_holds_what_was_set_last() {
    let mut env = Environment::new();
    env.set_var("A", "1");
    env.set_var("B", "2");
    assert_eq!(env.var("A").unwrap(), "1");
    assert_eq!(env.var("B").unwrap(), "2");
    env.set_var("A", "3");
    assert_eq!(env.var("A").unwrap(), "3");
    assert_eq!(env.var("B").unwrap(), "2");
    assert!(matches!(env.var("C"), Err(VarError::NotPresent)));
}

#[test]
fn names_are_compared_exactly() {
    let mut env = Environment::new();
    env.set_var("NAME", "x");
    assert!(env.var("name").is_err());
    assert!(env.var("NAME ").is_err());
    assert!(env.var("").is_err());
    env.set_var("", "empty name");
    assert_eq!(env.var("").unwrap(), "empty name");
}

#[test]
fn a_removed_variable_is_not_present() {
    let mut env = Environment::new();
    env.set_var("A", "1");
    env.set_var("B", "2");
    env.remove_var("A");
    assert!(matches!(env.var("A"), Err(VarError::NotPresent)));
    assert_eq!(env.var("B").unwrap(), "2");
    env.remove_var("NEVER_SET");
    assert!(matches!(env.var("NEVER_SET"), Err(VarError::NotPresent)));
    env.set_var("A", "again");
    assert_eq!(env.var("A").unwrap(), "again");
}

#[test]
fn a_variable_that_is_not_unicode_is_reported_as_such() {
    let mut env = Environment::new();
    env.set_var_not_unicode("RAW", "\"\\xC3\"");
    match env.var("RAW") {
        Err(VarError::NotUnicode(raw)) => assert_eq!(raw, "\"\\xC3\""),
        other => panic!("unexpected result: {other:?}"),
    }
    env.set_var("RAW", "text now");
    assert_eq!(env.var("RAW").unwrap(), "text now");
}

#[test]
fn a_file_holds_what_was_set_last() {
    let mut env = Environment::new();
    env.set_file("/a", "one");
    env.set_file("/b", "two");
    assert_eq!(env.read_to_string("/a").unwrap(), "one");
    assert_eq!(env.read_to_string("/b").unwrap(), "two");
    env.set_file("/a", "three");
    assert_eq!(env.read_to_string("/a").unwrap(), "three");
    env.set_file_error("/b", IoErrorKind::PermissionDenied, "Permission denied (os error 13)");
    let e = env.read_to_string("/b").unwrap_err();
    assert_eq!(e.kind, IoErrorKind::PermissionDenied);
    assert_eq!(e.message, "Permission denied (os error 13)");
    assert_eq!(env.read_to_string("/a").unwrap(), "three");
}

#[test]
fn variables_and_files_do_not_touch_each_other() {
    let mut env = Environment::new();
    env.set_var("/path", "variable");
    assert!(env.read_to_string("/path").is_err());
    env.set_file("/path", "file");
    assert_eq!(env.var("/path").unwrap(), "variable");
    assert_eq!(env.read_to_string("/path").unwrap(), "file");
    env.remove_var("/path");
    assert_eq!(env.read_to_string("/path").unwrap(), "file");
}
