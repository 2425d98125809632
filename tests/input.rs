use tg_reporter::channel::ReportError;
use tg_reporter::input::parse_identifier_list;
use tg_reporter::item::{begin_item, ItemStep};
use tg_reporter::operation::Operation;

#[test]
fn blank_lines_are_dropped() {
    assert_eq!(parse_identifier_list("@a\n\nt.me/b/c"), vec!["@a", "t.me/b/c"]);
}

#[test]
fn lines_are_trimmed() {
    assert_eq!(parse_identifier_list("  @a  \r\n\t\n   \n@b"), vec!["@a", "@b"]);
}

#[test]
fn empty_text_has_no_identifiers() {
    assert!(parse_identifier_list("").is_empty());
    assert!(parse_identifier_list("\n\n").is_empty());
}

#[test]
fn trailing_newline_adds_nothing() {
    assert_eq!(parse_identifier_list("@a\n@b\n"), vec!["@a", "@b"]);
}

#[test]
fn three_line_file_gives_two_items_second_unsupported() {
    let op = Operation::Report {
        message: None,
        channels: vec![],
        file: Some("list.txt".to_string()),
        timeout: 10,
    };
    let list = op.identifiers(Some("@a\n\nt.me/b/c"));
    assert_eq!(list.len(), 2);
    match begin_item(&list[0]) {
        ItemStep::Lookup { handle } => assert_eq!(handle, "a"),
        other => panic!("unexpected {:?}", other),
    }
    match begin_item(&list[1]) {
        ItemStep::Finished { result } => {
            assert_eq!(result, Err(ReportError::UnsupportedIdentifier))
        }
        other => panic!("unexpected {:?}", other),
    }
}

#[test]
fn channels_are_used_without_file() {
    let op = Operation::Report {
        message: Some("m".to_string()),
        channels: vec!["@x".to_string(), "@y".to_string()],
        file: None,
        timeout: 3,
    };
    assert_eq!(op.identifiers(None), vec!["@x", "@y"]);
    assert_eq!(op.message_override(), &Some("m".to_string()));
    let p = op.pipeline(None);
    assert!(p.outcomes().is_empty());
}

#[test]
fn unicode_white_space_is_trimmed() {
    assert_eq!(parse_identifier_list("\u{3000}@a\u{a0}\n\u{2028}\n\u{85}@b"), vec!["@a", "@b"]);
}
