use bsdeploy::shell::{escape, escape_env_value};

#[test]
fn test_escape_simple() {
    assert_eq!(escape("hello"), "hello");
    assert_eq!(escape("world123"), "world123");
}

#[test]
fn test_escape_with_special_chars() {
    assert_eq!(escape("hello world"), "'hello world'");
    assert_eq!(escape("test@example"), "'test@example'");
    assert_eq!(escape("$HOME"), "'$HOME'");
}

#[test]
fn test_escape_with_single_quote() {
    assert_eq!(escape("it's"), "'it'\\''s'");
    assert_eq!(escape("'quoted'"), "''\\''quoted'\\'''");
}

#[test]
fn test_escape_empty() {
    assert_eq!(escape(""), "''");
}

#[test]
fn test_escape_path_like() {
    assert_eq!(escape("/var/lib/app"), "/var/lib/app");
    assert_eq!(escape("file.txt"), "file.txt");
    assert_eq!(escape("my-app_v1.0"), "my-app_v1.0");
}

#[test]
fn test_escape_dangerous_input() {
    // These should all be safely escaped
    assert_eq!(escape("; rm -rf /"), "'; rm -rf /'");
    assert_eq!(escape("$(whoami)"), "'$(whoami)'");
    assert_eq!(escape("`id`"), "'`id`'");
    assert_eq!(escape("foo && bar"), "'foo && bar'");
    assert_eq!(escape("foo | bar"), "'foo | bar'");
    assert_eq!(escape("foo > /etc/passwd"), "'foo > /etc/passwd'");
}

#[test]
fn test_escape_env_value() {
    assert_eq!(escape_env_value("simple"), "simple");
    assert_eq!(escape_env_value("it's"), "it'\\''s");
    assert_eq!(escape_env_value("no'quotes'here"), "no'\\''quotes'\\''here");
}

#[test]
fn test_escape_unicode() {
    // Unicode characters should be quoted
    assert_eq!(escape("héllo"), "'héllo'");
    assert_eq!(escape("日本語"), "'日本語'");
}

#[test]
fn test_escape_newlines_and_tabs() {
    assert_eq!(escape("line1\nline2"), "'line1\nline2'");
    assert_eq!(escape("col1\tcol2"), "'col1\tcol2'");
}

