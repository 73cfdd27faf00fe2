use cmakefmt::error::{ConfigError, Error, FileParseError, ParseDiagnostic, ParseError, SpecError};

#[test]
fn parse_diagnostic_display_shows_message() {
    let diag = ParseDiagnostic {
        message: "expected argument part".into(),
        line: 5,
        column: 10,
    };
    assert_eq!(diag.render(), "expected argument part");
}

#[test]
fn parse_diagnostic_from_parse_error() {
    let source = "if(\n";
    let err = cmakefmt::parser::parse(source).unwrap_err();
    if let Error::Parse(ParseError { diagnostic, .. }) = err {
        assert!(diagnostic.line >= 1);
        assert!(diagnostic.column >= 1);
        assert!(!diagnostic.message.is_empty());
    } else {
        panic!("expected Parse, got {err:?}");
    }
}

#[test]
fn error_parse_display() {
    let err = Error::Parse(ParseError {
        display_name: "test.cmake".to_owned(),
        source_text: "if(\n".into(),
        start_line: 1,
        diagnostic: ParseDiagnostic {
            message: "expected argument part".into(),
            line: 1,
            column: 4,
        },
    });
    let msg = err.render();
    assert!(msg.contains("test.cmake"));
    assert!(msg.contains("expected argument part"));
}

#[test]
fn error_config_display() {
    let err = Error::Config(ConfigError {
        path: "bad.yaml".to_owned(),
        details: FileParseError {
            format: "YAML",
            message: "unexpected key".into(),
            line: Some(3),
            column: Some(1),
        },
    });
    let msg = err.render();
    assert!(msg.contains("bad.yaml"));
    assert!(msg.contains("unexpected key"));
}

#[test]
fn error_spec_display() {
    let err = Error::Spec(SpecError {
        path: "commands.yaml".to_owned(),
        details: FileParseError {
            format: "YAML",
            message: "invalid nargs".into(),
            line: None,
            column: None,
        },
    });
    let msg = err.render();
    assert!(msg.contains("commands.yaml"));
    assert!(msg.contains("invalid nargs"));
}

#[test]
fn error_io_display() {
    let err = Error::Io(std::io::Error::new(
        std::io::ErrorKind::NotFound,
        "file not found",
    ));
    assert!(err.render().contains("file not found"));
}

#[test]
fn error_formatter_display() {
    let err = Error::Formatter("something went wrong".to_owned());
    assert!(err.render().contains("something went wrong"));
}

#[test]
fn error_layout_too_wide_display() {
    let err = Error::LayoutTooWide {
        line_no: 42,
        width: 120,
        limit: 80,
    };
    let msg = err.render();
    assert!(msg.contains("42"));
    assert!(msg.contains("120"));
    assert!(msg.contains("80"));
}

#[test]
fn with_display_name_updates_parse() {
    let err = Error::Parse(ParseError {
        display_name: "original".to_owned(),
        source_text: "set(\n".into(),
        start_line: 1,
        diagnostic: ParseDiagnostic {
            message: "test".into(),
            line: 1,
            column: 5,
        },
    });
    let renamed = err.with_display_name("renamed.cmake");
    match renamed {
        Error::Parse(ParseError { display_name, .. }) => {
            assert_eq!(display_name, "renamed.cmake");
        }
        _ => panic!("expected Parse"),
    }
}

#[test]
fn with_display_name_passes_through_non_parse_errors() {
    let err = Error::Formatter("test".to_owned());
    let result = err.with_display_name("ignored");
    match result {
        Error::Formatter(msg) => assert_eq!(msg, "test"),
        _ => panic!("expected Formatter to pass through"),
    }
}

#[test]
fn io_error_converts_from_std() {
    let io_err = std::io::Error::new(std::io::ErrorKind::PermissionDenied, "denied");
    let err: Error = io_err.into();
    match err {
        Error::Io(e) => assert_eq!(e.kind(), std::io::ErrorKind::PermissionDenied),
        _ => panic!("expected Io variant"),
    }
}

#[test]
fn layout_too_wide_renders_exact_text() {
    let err = Error::LayoutTooWide {
        line_no: 7,
        width: 95,
        limit: 80,
    };
    assert_eq!(
        err.render(),
        "line 7 is 95 characters wide, exceeding the configured limit of 80"
    );
}

#[test]
fn config_and_spec_errors_render_exact_text() {
    let c = ConfigError::new("a.toml".to_owned(), "TOML", "bad".to_owned(), None, None);
    assert_eq!(Error::Config(c).render(), "config error in a.toml: bad");
    let s = SpecError::new("s.yaml".to_owned(), "YAML", "worse".to_owned(), Some(1), Some(2));
    assert_eq!(Error::Spec(s).render(), "spec error in s.yaml: worse");
}

#[test]
fn parse_error_of_unclosed_command_names_input() {
    match cmakefmt::parser::parse("if(\n") {
        Err(e) => assert!(e.render().starts_with("parse error in <input>: ")),
        Ok(_) => panic!("expected a parse error"),
    }
}
