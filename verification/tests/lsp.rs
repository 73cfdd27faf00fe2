use cmakefmt::config::Config;
use cmakefmt::formatter::format_source;
use cmakefmt::lsp::{
    config_for_document, disable_selection_edits, full_document_edit, percent_decode,
    range_edit, range_request, select_range, uri_to_path, Documents, TextEdit,
};

#[test]
fn uri_to_path_decodes_file_uri() {
    let path = uri_to_path("file:///home/user/CMakeLists.txt").unwrap();
    assert_eq!(path, "/home/user/CMakeLists.txt");
}

#[test]
fn uri_to_path_percent_decodes_spaces() {
    let path = uri_to_path("file:///home/my%20project/CMakeLists.txt").unwrap();
    assert_eq!(path, "/home/my project/CMakeLists.txt");
}

#[test]
fn uri_to_path_rejects_non_file_uri() {
    assert!(uri_to_path("untitled:Untitled-1").is_none());
}

#[test]
fn percent_decode_passes_through_invalid_escape() {
    assert_eq!(percent_decode("100%done"), "100%done");
    assert_eq!(percent_decode("a%2zb"), "a%2zb");
}

#[test]
fn config_for_document_falls_back_for_unsaved_document() {
    let fallback = Config {
        line_width: 42,
        ..Config::default()
    };
    let config = config_for_document("untitled:Untitled-1", &fallback, None);
    assert_eq!(config.line_width, 42);
}

#[test]
fn config_for_document_prefers_discovered_config_for_saved_document() {
    let fallback = Config {
        line_width: 100,
        ..Config::default()
    };
    let discovered = Config {
        line_width: 40,
        ..Config::default()
    };
    let config = config_for_document("file:///p/CMakeLists.txt", &fallback, Some(discovered));
    assert_eq!(config.line_width, 40);
}

#[test]
fn uri_with_host_keeps_path_from_first_slash() {
    assert_eq!(uri_to_path("file://host/share/a%2Fb").unwrap(), "/share/a/b");
    assert!(uri_to_path("file://hostonly").is_none());
}

#[test]
fn percent_decode_truncated_escape_is_kept() {
    assert_eq!(percent_decode("a%4"), "a%4");
    assert_eq!(percent_decode("a%41"), "aA");
    assert_eq!(percent_decode("%41b"), "Ab");
    assert_eq!(percent_decode("%e2%9c%94"), "\u{2714}");
}

#[test]
fn full_document_edit_covers_entire_single_line_document() {
    let original = "message(hello)\n";
    let formatted = "message(hello)\n".to_string();
    let edit = full_document_edit(original, formatted.clone());
    assert_eq!(edit.start.line, 0);
    assert_eq!(edit.start.character, 0);
    assert_eq!(edit.end.line, 0);
    assert_eq!(edit.end.character, "message(hello)".len() as u32);
    assert_eq!(edit.new_text, formatted);
}

#[test]
fn full_document_edit_covers_last_line_of_multi_line_document() {
    let original = "line_one()\nline_two()\n";
    let edit = full_document_edit(original, original.to_string());
    assert_eq!(edit.end.line, 1);
    assert_eq!(edit.end.character, "line_two()".len() as u32);
}

#[test]
fn full_document_edit_handles_empty_document() {
    let edit = full_document_edit("", String::new());
    assert_eq!(edit.start.line, 0);
    assert_eq!(edit.end.line, 0);
    assert_eq!(edit.end.character, 0);
}

#[test]
fn full_document_edit_counts_utf16_units() {
    let original = "message(cafe)\nmessage(\"\u{e9}\")\n";
    let edit = full_document_edit(original, original.to_string());
    assert_eq!(edit.end.line, 1);
    assert_eq!(edit.end.character, "message(\"\u{e9}\")".encode_utf16().count() as u32);
}

#[test]
fn full_document_edit_counts_astral_characters_twice() {
    let edit = full_document_edit("a\nx\u{1F600}y\n", String::new());
    assert_eq!(edit.end.line, 1);
    assert_eq!(edit.end.character, 4);
}

fn docs(uri: &str, text: &str) -> Documents {
    let mut d = Documents::new();
    d.open(uri.to_string(), text.to_string());
    d
}

/// Format a document as the server does: the document's text, formatted
/// with the configuration, as one edit over the whole document.
fn format_document(documents: &Documents, uri: &str, config: &Config) -> Option<TextEdit> {
    let text = documents.get(uri)?;
    let formatted = format_source(text, config).ok()?;
    Some(full_document_edit(text, formatted))
}

/// Format a range as the server does: `None` for an unknown document, no
/// edits for an empty selection, else one edit over the selected lines.
fn format_range(documents: &Documents, uri: &str, start: u32, end: u32, config: &Config) -> Option<Vec<TextEdit>> {
    let selection = range_request(documents, uri, start, end)?;
    let Some((slice, first, last, last_char)) = selection else {
        return Some(Vec::new());
    };
    let formatted = format_source(&slice, config).ok()?;
    Some(vec![range_edit(first, last, last_char, formatted)])
}

#[test]
fn handle_formatting_returns_formatted_edit() {
    let uri = "file:///test.cmake";
    let text = "MESSAGE(hello)\n";
    let edit = format_document(&docs(uri, text), uri, &Config::default()).unwrap();
    assert!(edit.new_text.starts_with("message("));
    assert_eq!(edit.start.line, 0);
    assert_eq!(edit.end.line, 0);
}

#[test]
fn handle_formatting_returns_none_for_unknown_uri() {
    let resp = format_document(&Documents::new(), "file:///missing.cmake", &Config::default());
    assert!(resp.is_none());
}

#[test]
fn handle_range_formatting_formats_selected_lines() {
    let uri = "file:///test.cmake";
    let text = "message(a)\nMESSAGE(b)\nmessage(c)\n";
    let edits = format_range(&docs(uri, text), uri, 1, 1, &Config::default()).unwrap();
    assert_eq!(edits.len(), 1);
    assert!(edits[0].new_text.contains("message(b)"));
    assert_eq!(edits[0].start.line, 1);
    assert_eq!(edits[0].end.line, 1);
}

#[test]
fn handle_range_formatting_returns_none_for_unknown_uri() {
    let resp = format_range(&Documents::new(), "file:///missing.cmake", 0, 0, &Config::default());
    assert!(resp.is_none());
}

#[test]
fn handle_range_formatting_ignores_range_start_past_eof() {
    let uri = "file:///test.cmake";
    let edits = format_range(&docs(uri, "message(a)\n"), uri, 5, 7, &Config::default()).unwrap();
    assert!(edits.is_empty());
}

#[test]
fn handle_range_formatting_counts_utf16_units() {
    let uri = "file:///test.cmake";
    let text = "message(a)\nMESSAGE(\"\u{e9}\")\n";
    let edits = format_range(&docs(uri, text), uri, 1, 1, &Config::default()).unwrap();
    assert_eq!(edits[0].end.character, "MESSAGE(\"\u{e9}\")".encode_utf16().count() as u32);
}

#[test]
fn handle_code_action_returns_disable_action() {
    let (off, on) = disable_selection_edits(2, 4);
    assert_eq!(off.start.line, 2);
    assert_eq!(off.end.line, 2);
    assert_eq!(off.new_text, "# cmakefmt: off\n");
    assert_eq!(on.start.line, 5);
    assert_eq!(on.new_text, "# cmakefmt: on\n");
}

#[test]
fn handle_notification_did_open_inserts_document() {
    let uri = "file:///open.cmake";
    let text = "message(hello)\n";
    let mut d = Documents::new();
    d.open(uri.to_string(), text.to_string());
    assert_eq!(d.get(uri).map(String::as_str), Some(text));
}

#[test]
fn handle_notification_did_change_updates_document() {
    let uri = "file:///change.cmake";
    let mut d = Documents::new();
    d.open(uri.to_string(), "old\n".to_string());
    d.open(uri.to_string(), "new\n".to_string());
    assert_eq!(d.get(uri).map(String::as_str), Some("new\n"));
}

#[test]
fn handle_notification_did_close_removes_document() {
    let uri = "file:///close.cmake";
    let mut d = Documents::new();
    d.open(uri.to_string(), "content\n".to_string());
    d.close(uri);
    assert!(d.get(uri).is_none());
}

#[test]
fn documents_keep_other_uris_when_one_changes() {
    let mut d = Documents::new();
    d.open("file:///a.cmake".to_string(), "a\n".to_string());
    d.open("file:///b.cmake".to_string(), "b\n".to_string());
    d.open("file:///a.cmake".to_string(), "a2\n".to_string());
    d.close("file:///c.cmake");
    assert_eq!(d.get("file:///a.cmake").map(String::as_str), Some("a2\n"));
    assert_eq!(d.get("file:///b.cmake").map(String::as_str), Some("b\n"));
    d.close("file:///a.cmake");
    assert!(d.get("file:///a.cmake").is_none());
    assert_eq!(d.get("file:///b.cmake").map(String::as_str), Some("b\n"));
}

#[test]
fn range_edit_spans_the_selected_lines() {
    let edit = range_edit(3, 5, 7, "x\n".to_string());
    assert_eq!((edit.start.line, edit.start.character), (3, 0));
    assert_eq!((edit.end.line, edit.end.character), (5, 7));
    assert_eq!(edit.new_text, "x\n");
}

#[test]
fn range_selection_clamps_and_joins_lines() {
    let (text, start, end, last) = select_range("a()\nb()\nc()\n", 1, 10).unwrap();
    assert_eq!(text, "b()\nc()\n");
    assert_eq!((start, end, last), (1, 2, 3));
    assert!(select_range("a()\n", 3, 4).is_none());
    assert!(select_range("", 0, 0).is_none());
}

#[test]
fn disable_edits_wrap_the_selection() {
    let (off, on) = disable_selection_edits(2, 5);
    assert_eq!(off.start.line, 2);
    assert_eq!(off.new_text, "# cmakefmt: off\n");
    assert_eq!(on.start.line, 6);
    assert_eq!(on.new_text, "# cmakefmt: on\n");
}
