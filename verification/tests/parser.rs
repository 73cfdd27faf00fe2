use cmakefmt::ast::{Argument, Comment, File, Statement};
use cmakefmt::error::Error;
use cmakefmt::parser::parse;

fn parse_ok(src: &str) -> File {
    match parse(src) {
        Ok(f) => f,
        Err(e) => panic!("parse failed for {src:?}: {}", e.render()),
    }
}

#[test]
fn empty_file() {
    let f = parse_ok("");
    assert!(f.statements.is_empty());
}

#[test]
fn simple_command() {
    let f = parse_ok("cmake_minimum_required(VERSION 3.20)\n");
    assert_eq!(f.statements.len(), 1);
    let Statement::Command(cmd) = &f.statements[0] else {
        panic!()
    };
    assert_eq!(cmd.name, "cmake_minimum_required");
    assert_eq!(cmd.arguments.len(), 2);
    assert!(cmd.trailing_comment.is_none());
}

#[test]
fn command_no_args() {
    let f = parse_ok("some_command()\n");
    let Statement::Command(cmd) = &f.statements[0] else {
        panic!()
    };
    assert!(cmd.arguments.is_empty());
}

#[test]
fn quoted_argument() {
    let f = parse_ok("message(\"hello world\")\n");
    let Statement::Command(cmd) = &f.statements[0] else {
        panic!()
    };
    assert!(matches!(&cmd.arguments[0], Argument::Quoted(_)));
}

#[test]
fn bracket_argument_zero_equals() {
    let f = parse_ok("set(VAR [[hello]])\n");
    let Statement::Command(cmd) = &f.statements[0] else {
        panic!()
    };
    let Argument::Bracket(b) = &cmd.arguments[1] else {
        panic!()
    };
    assert_eq!(b.level, 0);
}

#[test]
fn bracket_argument_one_equals() {
    let f = parse_ok("set(VAR [=[hello]=])\n");
    let Statement::Command(cmd) = &f.statements[0] else {
        panic!()
    };
    let Argument::Bracket(b) = &cmd.arguments[1] else {
        panic!()
    };
    assert_eq!(b.level, 1);
}

#[test]
fn bracket_argument_two_equals() {
    let f = parse_ok("set(VAR [==[contains ]= inside]==])\n");
    let Statement::Command(cmd) = &f.statements[0] else {
        panic!()
    };
    let Argument::Bracket(b) = &cmd.arguments[1] else {
        panic!()
    };
    assert_eq!(b.level, 2);
}

#[test]
fn invalid_bracket_argument_returns_error() {
    let err = parse("set(VAR [=[hello]==])\n").unwrap_err();
    assert!(matches!(err, Error::Formatter(_)));
}

#[test]
fn line_comment_standalone() {
    let f = parse_ok("# this is a comment\n");
    assert!(matches!(
        &f.statements[0],
        Statement::Comment(Comment::Line(_))
    ));
}

#[test]
fn bracket_comment() {
    let f = parse_ok("#[[ multi\nline ]]\n");
    assert!(matches!(
        &f.statements[0],
        Statement::Comment(Comment::Bracket(_))
    ));
}

#[test]
fn variable_reference_in_unquoted() {
    let f = parse_ok("message(${MY_VAR})\n");
    let Statement::Command(cmd) = &f.statements[0] else {
        panic!()
    };
    assert!(matches!(&cmd.arguments[0], Argument::Unquoted(_)));
}

#[test]
fn env_variable_reference() {
    let f = parse_ok("message($ENV{PATH})\n");
    let Statement::Command(cmd) = &f.statements[0] else {
        panic!()
    };
    assert!(matches!(&cmd.arguments[0], Argument::Unquoted(_)));
}

#[test]
fn generator_expression() {
    let f = parse_ok("target_link_libraries(foo $<TARGET_FILE:bar>)\n");
    let Statement::Command(cmd) = &f.statements[0] else {
        panic!()
    };
    assert_eq!(cmd.arguments.len(), 2);
}

#[test]
fn multiline_argument_list() {
    let src = "target_link_libraries(mylib\n    PUBLIC dep1\n    PRIVATE dep2\n)\n";
    let f = parse_ok(src);
    let Statement::Command(cmd) = &f.statements[0] else {
        panic!()
    };
    assert_eq!(cmd.name, "target_link_libraries");
    assert_eq!(cmd.arguments.len(), 5); // mylib PUBLIC dep1 PRIVATE dep2
}

#[test]
fn inline_bracket_comment_in_arguments() {
    let src = "message(\"First\" #[[inline comment]] \"Second\")\n";
    let f = parse_ok(src);
    let Statement::Command(cmd) = &f.statements[0] else {
        panic!()
    };
    assert_eq!(cmd.arguments.len(), 3);
    assert!(matches!(
        &cmd.arguments[1],
        Argument::InlineComment(Comment::Bracket(_))
    ));
}

#[test]
fn line_comment_between_arguments() {
    let src = "target_sources(foo\n  PRIVATE a.cc # keep grouping\n  b.cc\n)\n";
    let f = parse_ok(src);
    let Statement::Command(cmd) = &f.statements[0] else {
        panic!()
    };
    assert!(cmd.arguments.iter().any(Argument::is_comment));
}

#[test]
fn trailing_comment_after_command() {
    let src = "message(STATUS \"hello\") # trailing\n";
    let f = parse_ok(src);
    let Statement::Command(cmd) = &f.statements[0] else {
        panic!()
    };
    assert!(matches!(cmd.trailing_comment, Some(Comment::Line(_))));
}

#[test]
fn file_without_final_newline() {
    let f = parse_ok("project(MyProject)");
    assert_eq!(f.statements.len(), 1);
}

#[test]
fn blank_lines_are_preserved() {
    let f = parse_ok("message(foo)\n\nproject(bar)\n");
    assert_eq!(f.statements.len(), 3);
    assert!(matches!(f.statements[1], Statement::BlankLines(1)));
}

#[test]
fn leading_blank_lines_are_preserved() {
    let f = parse_ok("\nmessage(foo)\n");
    assert!(matches!(f.statements[0], Statement::BlankLines(1)));
}

#[test]
fn escape_sequences_in_quoted() {
    let f = parse_ok("message(\"tab\\there\\nnewline\")\n");
    assert!(!f.statements.is_empty());
}

#[test]
fn escaped_quotes_in_quoted_argument_parse() {
    let f = parse_ok("message(FATAL_ERROR \"foo \\\"Debug\\\"\")\n");
    let Statement::Command(cmd) = &f.statements[0] else {
        panic!()
    };
    let args: Vec<&str> = cmd.arguments.iter().map(Argument::as_str).collect();
    assert_eq!(args, vec!["FATAL_ERROR", "\"foo \\\"Debug\\\"\""]);
}

#[test]
fn multiple_commands() {
    let src = "cmake_minimum_required(VERSION 3.20)\nproject(MyProject)\n";
    let f = parse_ok(src);
    assert_eq!(f.statements.len(), 2);
}

#[test]
fn nested_variable_reference() {
    let f = parse_ok("message(${${OUTER}})\n");
    let Statement::Command(cmd) = &f.statements[0] else {
        panic!()
    };
    assert_eq!(cmd.arguments.len(), 1);
}

#[test]
fn underscore_command_name_is_valid() {
    let f = parse_ok("_my_command(ARG)\n");
    let Statement::Command(cmd) = &f.statements[0] else {
        panic!()
    };
    assert_eq!(cmd.name, "_my_command");
}

#[test]
fn nested_parentheses_in_arguments_are_preserved_as_unquoted_tokens() {
    let f = parse_ok("if(FALSE AND (FALSE OR TRUE))\n");
    let Statement::Command(cmd) = &f.statements[0] else {
        panic!()
    };
    let args: Vec<&str> = cmd.arguments.iter().map(Argument::as_str).collect();
    assert_eq!(args, vec!["FALSE", "AND", "(FALSE OR TRUE)"]);
}

#[test]
fn source_file_with_utf8_bom_parses() {
    let f = parse_ok("\u{FEFF}project(MyProject)\n");
    assert_eq!(f.statements.len(), 1);
}

#[test]
fn top_level_template_placeholder_parses() {
    let f = parse_ok("@PACKAGE_INIT@\n");
    assert_eq!(
        f.statements,
        vec![Statement::TemplatePlaceholder("@PACKAGE_INIT@".to_owned())]
    );
}

#[test]
fn legacy_unquoted_argument_with_embedded_quotes_parses() {
    let f = parse_ok("set(x -Da=\"b c\")\n");
    let Statement::Command(cmd) = &f.statements[0] else {
        panic!()
    };
    assert_eq!(cmd.arguments[1].as_str(), "-Da=\"b c\"");
}

#[test]
fn legacy_unquoted_argument_with_make_style_reference_parses() {
    let f = parse_ok("set(x -Da=$(v))\n");
    let Statement::Command(cmd) = &f.statements[0] else {
        panic!()
    };
    assert_eq!(cmd.arguments[1].as_str(), "-Da=$(v)");
}

#[test]
fn legacy_unquoted_argument_with_embedded_parens_parses() {
    let f = parse_ok(r##"set(VERSION_REGEX "#define CLI11_VERSION[ 	]+"(.+)"")"##);
    let Statement::Command(cmd) = &f.statements[0] else {
        panic!()
    };
    assert_eq!(
        cmd.arguments[1].as_str(),
        "\"#define CLI11_VERSION[ \t]+\"(.+)\"\""
    );
}

#[test]
fn legacy_unquoted_argument_starting_with_quoted_segment_parses() {
    let f = parse_ok(r##"list(APPEND force-libcxx "CMAKE_CXX_COMPILER_ID STREQUAL "Clang"")"##);
    let Statement::Command(cmd) = &f.statements[0] else {
        panic!()
    };
    assert_eq!(
        cmd.arguments[2].as_str(),
        "\"CMAKE_CXX_COMPILER_ID STREQUAL \"Clang\"\""
    );
}

#[test]
fn parsed_files_are_in_shape() {
    let src = "a()\n\n\n# c\n\n\nb(x # y\n)\n\n";
    let f = parse(src).unwrap();
    let n = src.chars().count();
    for (k, st) in f.statements.iter().enumerate() {
        match st {
            Statement::BlankLines(c) => {
                assert!(*c >= 1);
                if let Some(next) = f.statements.get(k + 1) {
                    assert!(!matches!(next, Statement::BlankLines(_)));
                }
            }
            Statement::Command(c) => assert!(c.span.0 <= c.span.1 && c.span.1 <= n),
            _ => {}
        }
    }
}

#[test]
fn command_spans_are_byte_offsets() {
    let src = "# é\nset(a é)\n";
    let f = parse(src).unwrap();
    let c = f
        .statements
        .iter()
        .find_map(|s| match s {
            Statement::Command(c) => Some(c),
            _ => None,
        })
        .unwrap();
    assert_eq!(c.span, (5, 14));
    assert_eq!(&src[c.span.0..c.span.1], "set(a é)");
}
