use gargamel::kape_handler::{
    flag_of, is_empty_or_comment, kape_file_kind, parse_mkape, parse_tkape, remove_leading_whitspaces,
    split_once, unquote, KapeFileKind,
};

fn lines(text: &[&str]) -> Vec<String> {
    text.iter().map(|s| s.to_string()).collect()
}

fn target_file() -> Vec<String> {
    lines(&[
        "Description: Event logs",
        "Author: someone",
        "Version: 1.0",
        "RecreateDirectories: true",
        "Targets:",
        "    -",
        "        Name: Event logs",
        "        Category: EventLogs",
        "        Path: C:\\Windows\\System32\\winevt\\Logs\\",
        "        FileMask: '*.evtx'",
        "        Recursive: True",
        "    -",
        "        Name: Other",
        "        Path: C:\\Temp\\",
        "# Documentation",
    ])
}

#[test]
fn target_file_is_read() {
    let entry = parse_tkape(&target_file()).expect("readable");
    assert_eq!(entry.description, "Event logs");
    assert!(entry.recreate_directories);
    assert_eq!(entry.targets.len(), 2);
    let first = &entry.targets[0];
    assert_eq!(first.name, "Event logs");
    assert_eq!(first.category, "EventLogs");
    assert_eq!(first.path, "C:\\Windows\\System32\\winevt\\Logs\\");
    assert_eq!(first.file_mask, "*.evtx");
    assert!(first.recursive);
    assert_eq!(first.comment, "");
    let second = &entry.targets[1];
    assert_eq!(second.name, "Other");
    assert_eq!(second.path, "C:\\Temp\\");
    assert_eq!(second.file_mask, "");
    assert!(!second.recursive);
}

#[test]
fn module_file_is_read() {
    let text = lines(&[
        "Description: tools",
        "Processors:",
        "    -",
        "        Executable: tool.exe",
        "        CommandLine: -a -b",
        "        ExportFormat: csv",
        "    -",
        "        EXECUTABLE: other.exe",
        "        CommandLine: \"--all\"",
        "# end",
    ]);
    let processors = parse_mkape(&text).expect("readable");
    assert_eq!(processors.len(), 2);
    assert_eq!(processors[0].executable, "tool.exe");
    assert_eq!(processors[0].commad_line, "-a -b");
    assert_eq!(processors[1].executable, "other.exe");
    assert_eq!(processors[1].commad_line, "--all");
}

#[test]
fn empty_file_cannot_be_read() {
    assert!(parse_tkape(&Vec::new()).is_none());
    assert!(parse_mkape(&Vec::new()).is_none());
}

#[test]
fn lone_quote_value_cannot_be_read() {
    let text = lines(&["Description: '", "Author: x"]);
    assert!(parse_tkape(&text).is_none());
}

#[test]
fn last_line_is_never_read() {
    let text = lines(&["Author: x", "Description: late"]);
    let entry = parse_tkape(&text).expect("readable");
    assert_eq!(entry.description, "");
}

#[test]
fn comment_and_blank_lines_are_skipped() {
    assert!(is_empty_or_comment("# note"));
    assert!(is_empty_or_comment(""));
    assert!(is_empty_or_comment(" \t "));
    assert!(!is_empty_or_comment("  key: v"));
}

#[test]
fn key_and_value_split_at_first_colon() {
    assert_eq!(split_once("Path: C:\\x"), Some(("Path".to_string(), " C:\\x".to_string())));
    assert_eq!(split_once("no colon"), None);
}

#[test]
fn leading_white_space_is_counted() {
    assert_eq!(remove_leading_whitspaces("  \tab c"), ("ab c".to_string(), 3));
    assert_eq!(remove_leading_whitspaces("x"), ("x".to_string(), 0));
}

#[test]
fn quotes_are_removed_from_values() {
    assert_eq!(unquote("'a b'".to_string()), "a b");
    assert_eq!(unquote("\"x\"".to_string()), "x");
    assert_eq!(unquote("'x\"".to_string()), "'x\"");
    assert_eq!(unquote("''".to_string()), "");
}

#[test]
fn flags_read_true_only_for_true() {
    assert!(flag_of("true"));
    assert!(flag_of("True"));
    assert!(!flag_of("TRUE"));
    assert!(!flag_of("false"));
    assert!(!flag_of("yes"));
}

#[test]
fn configuration_kind_by_extension() {
    assert!(kape_file_kind("C:\\kape\\Targets\\a.tkape") == Some(KapeFileKind::Target));
    assert!(kape_file_kind("modules/b.mkape") == Some(KapeFileKind::Module));
    assert!(kape_file_kind("c.txt").is_none());
    assert!(kape_file_kind(".tkape").is_none());
}
